[package]
name = "minecraft_dev_tool"
version = "0.1.0"
edition = "2021"
publish = false

[dependencies]
env_logger = "0.11"
thiserror = "1"
