use minecraft_dev_tool::project_generator::file_operations::FileOperation;
use minecraft_dev_tool::scaffold::initializer::{
    _to_pascal_case, create_project_files, create_project_structure, formatted_project_name,
    project_folder, PROJECT_FOLDER,
};

fn creates_directory(plan: &[FileOperation], wanted: &str) -> bool {
    plan.iter().any(|operation| {
        matches!(operation, FileOperation::CreateDirectory { path } if path == wanted)
    })
}

fn creates_file(plan: &[FileOperation], wanted: &str) -> bool {
    plan.iter().any(|operation| {
        matches!(operation, FileOperation::CreateFile { path, content } if path == wanted && content.is_empty())
    })
}

#[test]
fn should_create_project_folders() {
    // GIVEN a project name
    let project_name = "test";

    // WHEN we create the project folders
    let result = create_project_structure(project_name, false);

    // THEN the project folders should be created
    assert!(result.is_ok());
    let plan = result.unwrap();
    assert_eq!(format!("{}/{}", PROJECT_FOLDER, project_name), project_folder(project_name));
    assert!(creates_directory(
        &plan,
        &format!("{}/{}/src/main/resources", PROJECT_FOLDER, project_name)
    ));
    assert!(creates_directory(
        &plan,
        &format!("{}/{}/src/main/java", PROJECT_FOLDER, project_name)
    ));
}

#[test]
fn should_create_project_folders_with_not_formated_name() {
    // GIVEN a project name
    let project_name = "test project";

    // WHEN we create the project folders
    let result = create_project_structure(project_name, false);

    // THEN the project folders should be created
    let project_name = formatted_project_name(project_name);
    assert!(result.is_ok());
    let plan = result.unwrap();
    assert_eq!("minecraft-plugins/test-project", project_folder("test project"));
    assert!(creates_directory(
        &plan,
        &format!("{}/{}/src/main/resources", PROJECT_FOLDER, project_name)
    ));
    assert!(creates_directory(
        &plan,
        &format!("{}/{}/src/main/java", PROJECT_FOLDER, project_name)
    ));
}

#[test]
fn should_not_create_project_because_of_existing_folder() {
    // GIVEN a project name
    let project_name = "test";

    // WHEN we create the project folders
    let result = create_project_structure(project_name, false);

    // THEN the project folders should be created
    assert!(result.is_ok());
    let plan = result.unwrap();
    assert!(creates_directory(
        &plan,
        &format!("{}/{}/src/main/resources", PROJECT_FOLDER, project_name)
    ));
    assert!(creates_directory(
        &plan,
        &format!("{}/{}/src/main/java", PROJECT_FOLDER, project_name)
    ));

    // WHEN we create the project folders again
    let result = create_project_structure(project_name, true);

    // THEN the project folders should not be created
    assert!(result.is_err());
    assert_eq!(
        "The project folder minecraft-plugins/test already exists",
        result.unwrap_err()
    );
}

#[test]
fn should_parse_string_into_camel_case() {
    // GIVEN a string
    let project_name = "test project";

    // WHEN we parse the string into camel case
    let camel_case = _to_pascal_case(project_name);

    // THEN the string should be in camel case
    assert_eq!("TestProject", camel_case);
}

#[test]
fn should_create_all_the_projects_file() {
    // GIVEN a project name
    let project_name = "test";

    // WHEN we create the project folders
    let folders_result = create_project_structure(project_name, false);
    // AND we create the files inside the project
    let files_result = create_project_files(project_name);

    // THEN both results are OK
    assert!(folders_result.is_ok());
    assert!(files_result.is_ok());
    // AND the following files should be created
    let plan = files_result.unwrap();
    assert!(creates_file(
        &plan,
        &format!("{}/{}/pom.xml", PROJECT_FOLDER, project_name)
    ));
    assert!(creates_file(
        &plan,
        &format!(
            "{}/{}/src/main/resources/plugin.yml",
            PROJECT_FOLDER, project_name
        )
    ));
    assert!(creates_file(
        &plan,
        &format!(
            "{}/{}/src/main/java/plugin/{}.java",
            PROJECT_FOLDER,
            project_name,
            _to_pascal_case(project_name)
        )
    ));
}

#[test]
fn pascal_case_splits_on_white_space_only() {
    assert_eq!("", _to_pascal_case(""));
    assert_eq!("", _to_pascal_case(" \t\n"));
    assert_eq!("Test-projectTwo", _to_pascal_case("  test-project \t two\n"));
    assert_eq!("ABc", _to_pascal_case("a bc"));
    assert_eq!("AlreadyPascal", _to_pascal_case("AlreadyPascal"));
}

#[test]
fn project_files_are_named_after_the_formatted_name() {
    let plan = create_project_files("my cool plugin").unwrap();
    assert_eq!(
        vec![
            FileOperation::CreateFile {
                path: String::from("minecraft-plugins/my-cool-plugin/pom.xml"),
                content: String::new(),
            },
            FileOperation::CreateFile {
                path: String::from(
                    "minecraft-plugins/my-cool-plugin/src/main/resources/plugin.yml"
                ),
                content: String::new(),
            },
            FileOperation::CreateFile {
                path: String::from(
                    "minecraft-plugins/my-cool-plugin/src/main/java/plugin/My-cool-plugin.java"
                ),
                content: String::new(),
            },
        ],
        plan
    );
}

#[test]
fn project_structure_plans_resources_before_sources() {
    let plan = create_project_structure("a b", false).unwrap();
    assert_eq!(
        vec![
            FileOperation::CreateDirectory {
                path: String::from("minecraft-plugins/a-b/src/main/resources"),
            },
            FileOperation::CreateDirectory {
                path: String::from("minecraft-plugins/a-b/src/main/java"),
            },
        ],
        plan
    );
}
