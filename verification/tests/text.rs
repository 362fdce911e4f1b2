use minecraft_dev_tool::console::Console;
use minecraft_dev_tool::project_generator::version::{
    find_coordinate, resolve_version, version_aliases,
};
use minecraft_dev_tool::text::{
    begins_with, capitalize_words, is_capitalized, replace_all, same_text, text_of, to_chars, trim,
    Separators,
};

#[test]
fn version_resolver_maps_known_releases() {
    assert_eq!("1.8.8-R0.1-SNAPSHOT", resolve_version("1.8.8"));
    assert_eq!("1.21-R0.1-SNAPSHOT", resolve_version("1.21"));
    assert_eq!("1.16.5-R0.1-SNAPSHOT", resolve_version("1.16.5"));
    assert!(resolve_version("1.8.8").ends_with("-SNAPSHOT"));
}

#[test]
fn version_resolver_passes_unknown_versions_through() {
    assert_eq!("9.9.9", resolve_version("9.9.9"));
    assert_eq!("", resolve_version(""));
    assert_eq!("1.8.8 ", resolve_version("1.8.8 "));
    assert_eq!("1.8", resolve_version("1.8"));
    assert_eq!("1.8.8-R0.1-SNAPSHOT", resolve_version("1.8.8-R0.1-SNAPSHOT"));
    assert_eq!("latest", resolve_version("latest"));
}

#[test]
fn version_table_maps_every_release_to_its_snapshot() {
    let aliases = version_aliases();
    assert_eq!(14, aliases.len());
    for alias in &aliases {
        assert_eq!(format!("{}-R0.1-SNAPSHOT", alias.release), alias.coordinate);
        assert_eq!(Some(alias.coordinate), find_coordinate(&aliases, alias.release));
        assert_eq!(alias.coordinate, resolve_version(alias.release));
    }
    assert_eq!(None, find_coordinate(&aliases, "0.0"));
    assert_eq!(None, find_coordinate(&Vec::new(), "1.8.8"));
}

#[test]
fn replace_all_replaces_every_occurrence_from_the_left() {
    assert_eq!("a/b/c", replace_all("a.b.c", ".", "/"));
    assert_eq!("", replace_all("", "x", "y"));
    assert_eq!("abc", replace_all("abc", "", "-"));
    assert_eq!("abc", replace_all("abc", "abcd", "-"));
    assert_eq!("-", replace_all("abc", "abc", "-"));
    assert_eq!("ba", replace_all("aaa", "aa", "b"));
    assert_eq!("xx", replace_all("{name}{name}", "{name}", "x"));
    assert_eq!("{name}", replace_all("{na{name}me}", "{name}", ""));
    assert_eq!("ééé", replace_all("eéé", "e", "é"));
    assert_eq!("a--b", replace_all("a  b", " ", "-"));
}

#[test]
fn trim_removes_white_space_at_both_ends_only() {
    assert_eq!("", trim(""));
    assert_eq!("", trim(" \t\r\n"));
    assert_eq!("a b", trim("  a b\n"));
    assert_eq!("a\tb", trim("a\tb"));
    assert_eq!("x", trim("\u{a0}x\u{3000}"));
    assert_eq!("toto", trim("toto\r\n"));
}

#[test]
fn capitalize_words_by_either_kind_of_separator() {
    assert_eq!(
        "HelloWorld42",
        capitalize_words("hello, world 42", Separators::NonAlphanumeric)
    );
    assert_eq!(
        "Hello,World42",
        capitalize_words("hello, world 42", Separators::WhiteSpace)
    );
    assert_eq!("", capitalize_words("", Separators::WhiteSpace));
    assert_eq!("X", capitalize_words("x", Separators::NonAlphanumeric));
}

#[test]
fn is_capitalized_tells_names_that_stay_as_they_are() {
    for (text, expected) in [
        ("", true),
        ("TestOne", true),
        ("1abc", true),
        ("testOne", false),
        ("Test One", false),
        ("Test-One", false),
        ("ßa", false),
    ] {
        assert_eq!(expected, is_capitalized(text), "{:?}", text);
        if expected {
            assert_eq!(text, capitalize_words(text, Separators::NonAlphanumeric));
        }
    }
}

#[test]
fn texts_compare_and_convert_by_characters() {
    assert!(same_text("", ""));
    assert!(same_text("été", "été"));
    assert!(!same_text("abc", "abd"));
    assert!(!same_text("abc", "ab"));
    assert!(!same_text("ab", "abc"));
    assert!(begins_with("--flag", "--"));
    assert!(begins_with("--", "--"));
    assert!(begins_with("x", ""));
    assert!(!begins_with("-", "--"));
    assert!(!begins_with("a--", "--"));
    let chars = to_chars("héllo");
    assert_eq!(vec!['h', 'é', 'l', 'l', 'o'], chars);
    assert_eq!("héllo", text_of(&chars));
}

#[test]
fn console_reads_line_by_line() {
    let mut console = Console::new("one\n\ntwo\r\nlast");
    assert!(!console.is_exhausted());
    assert_eq!(Some(String::from("one\n")), console.read_line());
    assert_eq!(Some(String::from("\n")), console.read_line());
    assert_eq!(Some(String::from("two\r\n")), console.read_line());
    assert_eq!(Some(String::from("last")), console.read_line());
    assert!(console.is_exhausted());
    assert!(!console.is_starved());
    assert_eq!(None, console.read_line());
    assert!(console.is_starved());
    assert_eq!(None, console.read_line());
}

#[test]
fn console_keeps_what_was_displayed() {
    let mut console = Console::new("");
    assert!(console.prompts().is_empty());
    console.display("first");
    console.display("");
    console.display("first");
    assert_eq!(
        &vec![String::from("first"), String::new(), String::from("first")],
        console.prompts()
    );
    assert!(!console.is_starved());
}
