//! The folders and the empty files of a new project under `PROJECT_FOLDER`.
//!
//! Nothing here touches the file system: the functions plan, and take as an
//! argument the one thing that has to be looked up on disk.

use crate::project_generator::file_operations::{operations, FileOperation, FileOperationView};
use crate::text::{capitalize_words, capitalized_words, replace_all, replaced, Separators};
use vstd::prelude::*;

verus! {

/// The folder that holds every project.
pub const PROJECT_FOLDER: &'static str = "minecraft-plugins";

/// The project's name as the name of a folder: a hyphen for every space.
pub open spec fn folder_name(project_name: Seq<char>) -> Seq<char> {
    replaced(project_name, " "@, "-"@)
}

/// The folder of the project.
pub open spec fn folder_of(project_name: Seq<char>) -> Seq<char> {
    PROJECT_FOLDER@ + "/"@ + folder_name(project_name)
}

/// The words of `project_name`, as white space separates them, joined with
/// the first character of each in upper case.
pub open spec fn pascal_case(project_name: Seq<char>) -> Seq<char> {
    capitalized_words(project_name, Separators::WhiteSpace)
}

/// The folders to create for a project: the one for resources and the one
/// for sources, each with its ancestors.
pub open spec fn structure(project_name: Seq<char>) -> Seq<FileOperationView> {
    seq![
        FileOperationView::CreateDirectory {
            path: folder_of(project_name) + "/src"@ + "/main"@ + "/resources"@,
        },
        FileOperationView::CreateDirectory {
            path: folder_of(project_name) + "/src"@ + "/main"@ + "/java"@,
        },
    ]
}

/// What is reported when the folder of the project is there already.
pub open spec fn already_exists(project_name: Seq<char>) -> Seq<char> {
    "The project folder "@ + folder_of(project_name) + " already exists"@
}

/// The files to create for a project, all of them empty: the build
/// descriptor, the manifest and the plugin class, which is named after the
/// folder in Pascal case.
pub open spec fn files(project_name: Seq<char>) -> Seq<FileOperationView> {
    seq![
        FileOperationView::CreateFile {
            path: folder_of(project_name) + "/pom.xml"@,
            content: Seq::empty(),
        },
        FileOperationView::CreateFile {
            path: folder_of(project_name) + "/src/main/resources/plugin.yml"@,
            content: Seq::empty(),
        },
        FileOperationView::CreateFile {
            path: folder_of(project_name) + "/src/main/java/plugin/"@ + pascal_case(
                folder_name(project_name),
            ) + ".java"@,
            content: Seq::empty(),
        },
    ]
}

/// The outcome of planning the folders: refused where the folder of the
/// project was found.
pub open spec fn structure_planned(project_name: Seq<char>, folder_found: bool) -> Result<
    Seq<FileOperationView>,
    Seq<char>,
> {
    if folder_found {
        Err(already_exists(project_name))
    } else {
        Ok(structure(project_name))
    }
}

/// The outcome of planning the files, which never fails.
pub open spec fn files_planned(project_name: Seq<char>) -> Result<
    Seq<FileOperationView>,
    Seq<char>,
> {
    Ok(files(project_name))
}

/// What a planning result stands for.
pub open spec fn planned(result: Result<Vec<FileOperation>, String>) -> Result<
    Seq<FileOperationView>,
    Seq<char>,
> {
    match result {
        Ok(plan) => Ok(operations(plan@)),
        Err(message) => Err(message@),
    }
}

/// The project's name as the name of a folder.
pub fn formatted_project_name(project_name: &str) -> (formatted: String)
    ensures
        formatted@ == folder_name(project_name@),
{
    replace_all(project_name, " ", "-")
}

/// The folder of the project: the path whose existence decides whether the
/// project can be created.
pub fn project_folder(project_name: &str) -> (folder: String)
    ensures
        folder@ == folder_of(project_name@),
{
    let mut folder = PROJECT_FOLDER.to_owned();
    folder.append("/");
    folder.append(formatted_project_name(project_name).as_str());
    folder
}

/// Joins the words of `project_name` in Pascal case.
pub fn _to_pascal_case(project_name: &str) -> (pascal: String)
    ensures
        pascal@ == pascal_case(project_name@),
{
    capitalize_words(project_name, Separators::WhiteSpace)
}

/// Plans the folders of a project. `folder_found` says whether the folder
/// of the project is there already; if it is, nothing is planned and the
/// error names the folder.
pub fn create_project_structure(project_name: &str, folder_found: bool) -> (result: Result<
    Vec<FileOperation>,
    String,
>)
    ensures
        planned(result) == structure_planned(project_name@, folder_found),
{
    let project_folder = project_folder(project_name);
    if folder_found {
        let mut message = "The project folder ".to_owned();
        message.append(project_folder.as_str());
        message.append(" already exists");
        return Err(message);
    }
    let mut src_folder = project_folder;
    src_folder.append("/src");
    let mut main_folder = src_folder;
    main_folder.append("/main");
    let mut resources_folder = main_folder.clone();
    resources_folder.append("/resources");
    let mut java_folder = main_folder;
    java_folder.append("/java");
    let mut plan: Vec<FileOperation> = Vec::new();
    plan.push(FileOperation::CreateDirectory { path: resources_folder });
    plan.push(FileOperation::CreateDirectory { path: java_folder });
    assert(operations(plan@) =~= structure(project_name@));
    Ok(plan)
}

/// Plans the files of a project. There is always a plan.
pub fn create_project_files(project_name: &str) -> (result: Result<Vec<FileOperation>, String>)
    ensures
        planned(result) == files_planned(project_name@),
{
    let formatted = formatted_project_name(project_name);
    let mut pom_file = project_folder(project_name);
    pom_file.append("/pom.xml");
    let mut plugin_yml_file = project_folder(project_name);
    plugin_yml_file.append("/src/main/resources/plugin.yml");
    let mut main_class_file = project_folder(project_name);
    main_class_file.append("/src/main/java/plugin/");
    main_class_file.append(_to_pascal_case(formatted.as_str()).as_str());
    main_class_file.append(".java");
    let mut plan: Vec<FileOperation> = Vec::new();
    plan.push(FileOperation::CreateFile { path: pom_file, content: String::new() });
    plan.push(FileOperation::CreateFile { path: plugin_yml_file, content: String::new() });
    plan.push(FileOperation::CreateFile { path: main_class_file, content: String::new() });
    assert(operations(plan@) =~= files(project_name@));
    Ok(plan)
}

} // verus!
