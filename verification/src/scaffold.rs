//! A bare project tree under a fixed folder.

pub mod initializer;
