//! The text of each generated file: a fixed template in which the project's
//! name, dependency version and group replace their placeholders.

use crate::text::{replace_all, replaced};
use vstd::prelude::*;

verus! {

/// The build descriptor. The project's name is both artifact and display
/// name, the group is the organisation, and the dependency version is a
/// property that the dependency's own version refers to.
pub const POM_XML_TEMPLATE: &'static str = r#"<?xml version="1.0" encoding="UTF-8"?>
<project xsi:schemaLocation="http://maven.apache.org/POM/4.0.0 https://maven.apache.org/xsd/maven-4.0.0.xsd"
    xmlns="http://maven.apache.org/POM/4.0.0"
    xmlns:xsi="http://www.w3.org/2001/XMLSchema-instance">
    <modelVersion>4.0.0</modelVersion>
    <groupId>{group_id}</groupId>
    <artifactId>{name}</artifactId>
    <version>1.0.0</version>
    <packaging>jar</packaging>
    <name>{name}</name>
    <description>Test project</description>
    <properties>
        <maven.compiler.target>21</maven.compiler.target>
        <maven.compiler.source>21</maven.compiler.source>
        <project.build.sourceEncoding>UTF-8</project.build.sourceEncoding>
        <spigot.version>{version}</spigot.version>
    </properties>
    <repositories>
        <repository>
            <id>spigot-repo</id>
            <url>https://hub.spigotmc.org/nexus/content/repositories/snapshots/</url>
        </repository>
    </repositories>
    <dependencies>
        <dependency>
            <groupId>org.spigotmc</groupId>
            <artifactId>spigot-api</artifactId>
            <version>${spigot.version}</version>
            <scope>provided</scope>
        </dependency>
    </dependencies>
</project>
    "#;

/// The seed source file: the group is the package, the project's name the
/// plugin class.
pub const MAIN_JAVA_TEMPLATE: &'static str = r#"package {group_id};

import org.bukkit.plugin.java.JavaPlugin;

public class {name} extends JavaPlugin {

    @Override
    public void onEnable() {
        getLogger().info("Hello, SpigotMC!");
    }

    @Override
    public void onDisable() {
        getLogger().info("Goodbye, SpigotMC!");
    }
}
    "#;

/// The metadata manifest: the entry point is the plugin class in its package.
pub const PLUGIN_YML_TEMPLATE: &'static str = r#"name: {name}
version: 1.0
main: {group_id}.{name}
author: Notch # Set yours
    "#;

/// `template` after substituting, in this order, the name for every
/// `{name}`, the version for every `{version}` and the group for every
/// `{group_id}`. Text that matches no placeholder stays as it is.
pub open spec fn file_content(
    template: Seq<char>,
    name: Seq<char>,
    version: Seq<char>,
    group_id: Seq<char>,
) -> Seq<char> {
    replaced(
        replaced(replaced(template, "{name}"@, name), "{version}"@, version),
        "{group_id}"@,
        group_id,
    )
}

/// Renders `template` for the given name, version and group.
pub fn generate_file_content(template: &str, name: &str, version: &str, group_id: &str) -> (content:
    String)
    ensures
        content@ == file_content(template@, name@, version@, group_id@),
{
    let named = replace_all(template, "{name}", name);
    let versioned = replace_all(named.as_str(), "{version}", version);
    replace_all(versioned.as_str(), "{group_id}", group_id)
}

/// The build descriptor of a project.
pub fn generate_pom_xml_content(name: &str, version: &str, group_id: &str) -> (content: String)
    ensures
        content@ == file_content(POM_XML_TEMPLATE@, name@, version@, group_id@),
{
    generate_file_content(POM_XML_TEMPLATE, name, version, group_id)
}

/// The seed source file of a project. It has no place for a version.
pub fn generate_main_java_content(name: &str, group_id: &str) -> (content: String)
    ensures
        content@ == file_content(MAIN_JAVA_TEMPLATE@, name@, Seq::empty(), group_id@),
{
    let content = generate_file_content(MAIN_JAVA_TEMPLATE, name, "", group_id);
    proof {
        reveal_strlit("");
        assert(""@ =~= Seq::<char>::empty());
    }
    content
}

/// The metadata manifest of a project. It has no place for a version.
pub fn generate_plugin_yml_content(name: &str, group_id: &str) -> (content: String)
    ensures
        content@ == file_content(PLUGIN_YML_TEMPLATE@, name@, Seq::empty(), group_id@),
{
    let content = generate_file_content(PLUGIN_YML_TEMPLATE, name, "", group_id);
    proof {
        reveal_strlit("");
        assert(""@ =~= Seq::<char>::empty());
    }
    content
}

} // verus!
