use minecraft_dev_tool::console::Console;
use minecraft_dev_tool::parameter::parameter_parser::{
    get_app_argument, get_parameter, get_user_input,
};

const INPUT_STRING: &str = "Please enter an input:";

fn parse_version(text: &str) -> Option<f32> {
    text.parse().ok()
}

fn parse_name(text: &str) -> Option<String> {
    text.parse().ok()
}

#[test]
fn parameter_parser_should_retrieve_plugin_version_by_app_arguments() {
    // GIVEN the app arguments
    // AND the user inputs
    let args = vec!["app".to_string(), "1.21".to_string(), "plugin".to_string()];
    let mut stdin = Console::new("\n");

    // WHEN we want to get the plugin version
    let plugin_version: f32 =
        get_parameter(&args, 1, &mut stdin, INPUT_STRING, parse_version).unwrap();

    // THEN the version should be retruned
    assert_eq!(1.21, plugin_version);
}

#[test]
fn parameter_parser_should_retrieve_plugin_version_by_user_input_with_invalid_app_argument() {
    // GIVEN the app arguments with an invalid format for the version
    // AND the user inputs
    let args = vec![
        "app".to_string(),
        "invalid".to_string(),
        "plugin".to_string(),
    ];
    let mut stdin = Console::new("1.21\n");

    // WHEN we want to get the plugin version
    let plugin_version: f32 =
        get_parameter(&args, 1, &mut stdin, INPUT_STRING, parse_version).unwrap();

    // THEN the plugin version should be retrieved from the user input
    assert_eq!(1.21, plugin_version);
}

#[test]
fn parameter_parser_should_retrieve_plugin_version_by_user_input_with_missing_app_argument() {
    // GIVEN the app arguments without the version
    // AND the user inputs
    let args = vec!["app".to_string()];
    let mut stdin = Console::new("1.21\n");

    // WHEN we want to get the plugin version
    let plugin_version: f32 =
        get_parameter(&args, 1, &mut stdin, INPUT_STRING, parse_version).unwrap();

    // THEN the plugin version should be retrieved from the user input
    assert_eq!(1.21, plugin_version);
}

#[test]
fn parameter_parser_should_retrieve_plugin_version_by_user_input_with_invalid_user_input() {
    // GIVEN the app arguments without the version
    // AND the user inputs
    let args = vec!["app".to_string()];
    let mut stdin = Console::new("plugin_test\n1.21\n");

    // WHEN we want to get the plugin version
    let plugin_name: f32 =
        get_parameter(&args, 1, &mut stdin, INPUT_STRING, parse_version).unwrap();

    // THEN the plugin version should be retrieved from the user input
    assert_eq!(1.21, plugin_name);
}

#[test]
fn parameter_parser_should_retrieve_plugin_name_by_app_arguments() {
    // GIVEN the app arguments
    // AND the user inputs
    let args = vec![
        "app".to_string(),
        "1.21".to_string(),
        "plugin_test".to_string(),
    ];
    let mut stdin = Console::new("\n");

    // WHEN we want to get the plugin version
    let plugin_name: String =
        get_parameter(&args, 2, &mut stdin, INPUT_STRING, parse_name).unwrap();

    // THEN the version should be retruned
    assert_eq!(String::from("plugin_test"), plugin_name);
}

#[test]
fn parameter_parser_should_retrieve_plugin_name_by_user_input_with_missing_app_argument() {
    // GIVEN the app arguments without the version
    // AND the user inputs
    let args = vec!["app".to_string()];
    let mut stdin = Console::new("plugin_test\n");

    // WHEN we want to get the plugin version
    let plugin_name: String =
        get_parameter(&args, 2, &mut stdin, INPUT_STRING, parse_name).unwrap();

    // THEN the plugin version should be retrieved from the user input
    assert_eq!(String::from("plugin_test"), plugin_name);
}

#[test]
fn parameter_parser_displays_its_prompt_then_the_notice() {
    let args = vec!["app".to_string()];
    let mut stdin = Console::new("x\n7\n");

    assert_eq!(
        Some(7.0),
        get_parameter(&args, 1, &mut stdin, INPUT_STRING, parse_version)
    );
    assert_eq!(
        &vec![
            String::from("Please enter an input:"),
            String::from("Invalid input. Please enter a valid value:"),
        ],
        stdin.prompts()
    );
}

#[test]
fn parameter_parser_user_input_stops_at_the_first_value() {
    let mut stdin = Console::new("a\n1\n2\n");
    assert_eq!(Some(1.0), get_user_input(&mut stdin, &parse_version));
    assert_eq!(Some(2.0), get_user_input(&mut stdin, &parse_version));
    assert_eq!(None, get_user_input(&mut stdin, &parse_version));
    assert_eq!(1, stdin.prompts().len());
}

#[test]
fn parameter_parser_app_argument_out_of_range_has_no_value() {
    let args = vec!["app".to_string(), "1.5".to_string()];
    assert_eq!(Some(1.5), get_app_argument(&args, 1, &parse_version));
    assert_eq!(None, get_app_argument(&args, 0, &parse_version));
    assert_eq!(None, get_app_argument(&args, 2, &parse_version));
}
