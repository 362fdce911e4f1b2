use minecraft_dev_tool::cli::Cli;
use minecraft_dev_tool::console::Console;

fn create_cli_instance(args: Vec<String>, user_input: &str) -> Cli {
    let input_buffer = Console::new(user_input);
    Cli::new(args, input_buffer)
}

#[test]
fn get_next_parameter_should_return_parameter_from_args() {
    // GIVEN an args array with one value
    let args = vec![String::from("toto")];
    let mut cli = create_cli_instance(args, "");

    // WHEN we call the get_next_parameter function
    let parameter = cli.get_next_parameter("", true);

    // THEN the parameter returned should be 'toto'
    assert_eq!("toto", parameter.unwrap());
}

#[test]
fn get_next_parameter_should_return_parameter_from_user_input() {
    // GIVEN an empty args array
    let args: Vec<String> = Vec::new();
    let mut cli = create_cli_instance(args, "toto\n");

    // WHEN we call the get_next_parameter function
    let parameter = cli.get_next_parameter("", true);

    // THEN the parameter should be 'toto'
    assert_eq!("toto", parameter.unwrap());
}

#[test]
fn get_next_parameter_should_return_none() {
    // GIVEN an empty args array
    let args: Vec<String> = Vec::new();
    let mut cli = create_cli_instance(args, "");

    // WHEN we call the get_next_parameter function
    let parameter = cli.get_next_parameter("", false);

    // THEN the parameter should be None
    assert_eq!(None, parameter);
}

#[test]
fn with_server_should_return_true() {
    // GIVEN an args array with a flag
    let args = vec![String::from("--with-server")];
    let mut cli = create_cli_instance(args, "");

    // WHEN we call the with_server function
    let with_server = cli.with_server();

    // THEN the with_server should be true
    assert!(with_server);
}

#[test]
fn with_server_should_return_false() {
    // GIVEN an args array without a flag
    let args: Vec<String> = Vec::new();
    let mut cli = create_cli_instance(args, "no\n");

    // WHEN we call the with_server function
    let with_server = cli.with_server();

    // THEN the with_server should be false
    assert!(!with_server);
}

#[test]
fn with_server_should_return_true_from_user_input() {
    // GIVEN an args array without a flag
    let args: Vec<String> = Vec::new();
    let mut cli = create_cli_instance(args, "yes\n");

    // WHEN we call the with_server function
    let with_server = cli.with_server();

    // THEN the with_server should be true
    assert!(with_server);
}

#[test]
fn with_server_should_return_true_from_user_input_shortcut() {
    // GIVEN an args array without a flag
    let args: Vec<String> = Vec::new();
    let mut cli = create_cli_instance(args, "y\n");

    // WHEN we call the with_server function
    let with_server = cli.with_server();

    // THEN the with_server should be true
    assert!(with_server);
}

#[test]
fn get_user_input_should_return_user_input() {
    // GIVEN an empty args array
    let args: Vec<String> = Vec::new();
    let mut cli = create_cli_instance(args, "toto\n");

    // WHEN we call the get_user_input function
    let user_input = cli.get_user_input("Please provide a parameter:");

    // THEN the user_input should be 'toto'
    assert_eq!("toto", user_input);
}

#[test]
fn cli_keeps_flags_apart_from_parameters() {
    let args = vec![
        String::from("--with-server"),
        String::from("first"),
        String::from("--verbose"),
        String::from("second"),
        String::from("-single"),
    ];
    let mut cli = create_cli_instance(args, "typed\n");

    assert!(cli.has_flag("--with-server"));
    assert!(cli.has_flag("--verbose"));
    assert!(!cli.has_flag("first"));
    assert!(!cli.has_flag("-single"));
    assert_eq!(Some(String::from("first")), cli.get_next_parameter("", false));
    assert_eq!(Some(String::from("second")), cli.get_next_parameter("", false));
    assert_eq!(Some(String::from("-single")), cli.get_next_parameter("", false));
    assert_eq!(None, cli.get_next_parameter("", false));
    assert_eq!(Some(String::from("typed")), cli.get_next_parameter("", true));
    assert_eq!(None, cli.get_next_parameter("", true));
}

#[test]
fn with_server_asks_nothing_when_the_flag_is_given() {
    let args = vec![String::from("--with-server")];
    let mut cli = create_cli_instance(args, "no\n");

    assert!(cli.with_server());
    // the answer is still there to be read
    assert_eq!("no", cli.get_user_input("again"));
}

#[test]
fn with_server_is_false_without_flag_and_without_input() {
    let mut cli = create_cli_instance(Vec::new(), "");
    assert!(!cli.with_server());
    assert_eq!("", cli.get_user_input("again"));
}
