use minecraft_dev_tool::console::Console;
use minecraft_dev_tool::errors::GeneratorError;
use minecraft_dev_tool::execute;
use minecraft_dev_tool::project_generator::file_operations::FileOperation;
use minecraft_dev_tool::project_generator::spigot::SpigotGenerator;

fn arguments(values: &[&str]) -> Vec<String> {
    values.iter().map(|value| value.to_string()).collect()
}

fn content_of<'a>(plan: &'a [FileOperation], wanted: &str) -> &'a str {
    for operation in plan {
        if let FileOperation::CreateFile { path, content } = operation {
            if path == wanted {
                return content;
            }
        }
    }
    panic!("{} is not written", wanted);
}

#[test]
fn run_from_arguments_alone() {
    let mut console = Console::new("");
    let plan = execute(
        arguments(&["spigot", "TestOne", "1.8.8", "com.test", "./test"]),
        &mut console,
        "/work",
    )
    .unwrap();

    assert!(console.prompts().is_empty());
    assert!(!console.is_starved());
    assert_eq!(
        FileOperation::CreateDirectory {
            path: String::from("/work/test/testone")
        },
        plan[0]
    );
    let pom = content_of(&plan, "/work/test/testone/pom.xml");
    assert!(pom.contains("<artifactId>TestOne</artifactId>"));
    assert!(pom.contains("<spigot.version>1.8.8-R0.1-SNAPSHOT</spigot.version>"));
    assert!(pom.contains("<groupId>com.test</groupId>"));
    assert!(!pom.contains("{name}"));
    assert!(!pom.contains("{version}"));
    assert!(!pom.contains("{group_id}"));
    assert!(pom.contains("<version>${spigot.version}</version>"));
}

#[test]
fn run_normalises_the_name_before_anything_is_named_after_it() {
    let mut console = Console::new("");
    let plan = execute(
        arguments(&["spigot", "ezezz-ezfze_zefze=ff:pofkj", "1.21", "com.test"]),
        &mut console,
        "/work",
    )
    .unwrap();

    let paths: Vec<&str> = plan.iter().map(|operation| operation.path().as_str()).collect();
    assert_eq!(
        vec![
            "/work/ezezzezfzezefzeffpofkj",
            "/work/ezezzezfzezefzeffpofkj/pom.xml",
            "/work/ezezzezfzezefzeffpofkj/src/main/resources",
            "/work/ezezzezfzezefzeffpofkj/src/main/resources/plugin.yml",
            "/work/ezezzezfzezefzeffpofkj/src/main/java/com/test",
            "/work/ezezzezfzezefzeffpofkj/src/main/java/com/test/EzezzEzfzeZefzeFfPofkj.java",
        ],
        paths
    );
    let class = content_of(
        &plan,
        "/work/ezezzezfzezefzeffpofkj/src/main/java/com/test/EzezzEzfzeZefzeFfPofkj.java",
    );
    assert!(class.contains("public class EzezzEzfzeZefzeFfPofkj extends JavaPlugin {"));
    let manifest = content_of(
        &plan,
        "/work/ezezzezfzezefzeffpofkj/src/main/resources/plugin.yml",
    );
    assert!(manifest.contains("main: com.test.EzezzEzfzeZefzeFfPofkj"));
    assert!(manifest.contains("version: 1.0"));
}

#[test]
fn run_rejects_an_unknown_project_type_before_asking_anything_else() {
    let mut console = Console::new("name\n1.21\ncom.test\n");
    let result = execute(arguments(&["forge", "Name"]), &mut console, "/work");

    assert!(matches!(
        result,
        Err(GeneratorError::UnableToDetermineProjectType)
    ));
    assert!(console.prompts().is_empty());
    assert_eq!(Some(String::from("name\n")), console.read_line());
}

#[test]
fn run_rejects_an_unknown_project_type_that_was_typed() {
    let mut console = Console::new("paper\nName\n");
    let result = execute(Vec::new(), &mut console, "/work");

    assert!(matches!(
        result,
        Err(GeneratorError::UnableToDetermineProjectType)
    ));
    assert_eq!(
        &vec![String::from("Please provide the project type:")],
        console.prompts()
    );
    assert_eq!(Some(String::from("Name\n")), console.read_line());
}

#[test]
fn run_without_any_input_cannot_determine_the_project_type() {
    let mut console = Console::new("");
    let result = execute(Vec::new(), &mut console, "/work");

    assert!(matches!(
        result,
        Err(GeneratorError::UnableToDetermineProjectType)
    ));
    assert!(console.is_starved());
}

#[test]
fn run_asks_for_every_mandatory_parameter_that_is_missing() {
    let mut console = Console::new(" SpIgOt \nmy plugin\n9.9.9\ncom.typed\n/ignored\n");
    let plan = execute(Vec::new(), &mut console, "/work").unwrap();

    assert_eq!(
        &vec![
            String::from("Please provide the project type:"),
            String::from("Please provide a name for your project"),
            String::from("Please provide a version for your project"),
            String::from("Please provide a group id for your project"),
        ],
        console.prompts()
    );
    // the path is optional: it is not asked for, and the line stays unread
    assert_eq!(Some(String::from("/ignored\n")), console.read_line());
    assert_eq!("/work/myplugin", plan[0].path());
    let pom = content_of(&plan, "/work/myplugin/pom.xml");
    assert!(pom.contains("<spigot.version>9.9.9</spigot.version>"));
    assert!(pom.contains("<artifactId>MyPlugin</artifactId>"));
}

#[test]
fn run_mixes_arguments_and_answers() {
    let mut console = Console::new("com.typed\n");
    let plan = execute(
        arguments(&["spigot", "Mixed", "1.21"]),
        &mut console,
        "/work",
    )
    .unwrap();

    assert_eq!(
        &vec![String::from("Please provide a group id for your project")],
        console.prompts()
    );
    assert_eq!(
        "/work/mixed/src/main/java/com/typed/Mixed.java",
        plan[5].path()
    );
}

#[test]
fn run_accepts_an_empty_answer_for_a_mandatory_parameter() {
    let mut console = Console::new("\n\n\n");
    let plan = execute(arguments(&["spigot"]), &mut console, "/work").unwrap();

    assert_eq!("/work/", plan[0].path());
    assert_eq!("/work//src/main/java//.java", plan[5].path());
    assert!(!console.is_starved());
}

#[test]
fn run_fails_when_a_mandatory_parameter_cannot_be_read() {
    for (typed, prompts) in [("", 1), ("Name\n", 2), ("Name\n1.21\n", 3)] {
        let mut console = Console::new(typed);
        let result = execute(arguments(&["spigot"]), &mut console, "/work");

        assert!(matches!(
            result,
            Err(GeneratorError::MissingMandatoryParameter)
        ));
        assert_eq!(prompts, console.prompts().len());
        assert!(console.is_starved());
    }
}

#[test]
fn run_plans_what_the_generator_plans() {
    let mut console = Console::new("");
    let plan = execute(
        arguments(&["Spigot", "two words", "1.16.5", "org.example", "/abs/out", "extra"]),
        &mut console,
        "/work",
    )
    .unwrap();

    let generator = SpigotGenerator::new(
        String::from("two words"),
        String::from("1.16.5"),
        String::from("org.example"),
        Some(String::from("/abs/out")),
        "/work",
    );
    assert_eq!(generator.generate_project(), plan);
    assert_eq!("/abs/out/twowords", plan[0].path());
}

#[test]
fn more_input_takes_no_prompt_back() {
    let lines = ["spigot\n", "My Plugin\n", "1.21\n", "com.typed\n"];
    let mut typed = String::new();
    let mut shown: Vec<String> = Vec::new();
    for line in lines {
        let mut console = Console::new(&typed);
        let result = execute(Vec::new(), &mut console, "/work");
        assert!(result.is_err());
        assert!(console.is_starved());
        assert_eq!(shown.len() + 1, console.prompts().len());
        assert_eq!(shown[..], console.prompts()[..shown.len()]);
        shown = console.prompts().clone();
        typed.push_str(line);
    }
    let mut console = Console::new(&typed);
    let plan = execute(Vec::new(), &mut console, "/work").unwrap();
    assert!(!console.is_starved());
    assert_eq!(shown, *console.prompts());

    // the run has settled: a line typed after it changes nothing
    typed.push_str("unused\n");
    let mut longer = Console::new(&typed);
    assert_eq!(plan, execute(Vec::new(), &mut longer, "/work").unwrap());
    assert_eq!(shown, *longer.prompts());
    assert_eq!(Some(String::from("unused\n")), longer.read_line());
}
