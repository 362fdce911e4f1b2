use minecraft_dev_tool::project_generator::content_generator::{
    generate_file_content, generate_main_java_content, generate_plugin_yml_content,
    generate_pom_xml_content,
};

#[test]
fn test_generate_file_content() {
    let template = "Name: {name}, Version: {version}, Group ID: {group_id}";
    let name = "TestName";
    let version = "1.0.0";
    let group_id = "com.test";
    let result = generate_file_content(template, name, version, group_id);
    let expected = "Name: TestName, Version: 1.0.0, Group ID: com.test";
    assert_eq!(result, expected);
}

#[test]
fn test_generate_pom_xml_content() {
    let name = "TestName";
    let version = "1.0.0";
    let group_id = "com.test";
    let result = generate_pom_xml_content(name, version, group_id);
    assert!(result.contains("<artifactId>TestName</artifactId>"));
    assert!(result.contains("<version>1.0.0</version>"));
    assert!(result.contains("<groupId>com.test</groupId>"));
}

#[test]
fn test_generate_main_java_content() {
    let name = "TestName";
    let group_id = "com.test";
    let result = generate_main_java_content(name, group_id);
    assert!(result.contains("package com.test;"));
    assert!(result.contains("public class TestName extends JavaPlugin {"));
}

#[test]
fn test_generate_plugin_yml_content() {
    let name = "TestName";
    let group_id = "com.test";
    let result = generate_plugin_yml_content(name, group_id);
    assert!(result.contains("name: TestName"));
    assert!(result.contains("main: com.test.TestName"));
}
