//! Scaffolding of plugin projects.
//!
//! A run resolves its parameters from the command line and, where they are
//! missing there, from the terminal; normalises them; renders the files of
//! the project; and lays them out on disk in a fixed order, stopping at the
//! first failure. This crate holds all of that as functions on plain values:
//! `execute` turns arguments and terminal input into the plan of file
//! operations, and a `ScaffoldWriter` keeps the books while the caller carries
//! the plan out.

pub mod cli;
pub mod console;
pub mod errors;
pub mod parameter;
pub mod parameter_reader;
pub mod project_generator;
pub mod rerun;
pub mod scaffold;
pub mod spigot;
pub mod template;
pub mod text;

use crate::console::{Console, ConsoleView};
use crate::errors::GeneratorError;
use crate::parameter_reader::{get_parameter, resolution};
use crate::project_generator::file_operations::{operations, FileOperation, FileOperationView};
use crate::project_generator::spigot::{normalized, scaffold, SpigotGenerator};
use crate::project_generator::{get_project_type, project_type_of, ProjectGeneratorType};
use crate::text::{str_lowercase, texts};
use vstd::prelude::*;

verus! {

/// The prompt for the project type.
pub const PROJECT_TYPE_PROMPT: &'static str = "Please provide the project type:";

/// The prompt for the project's name.
pub const NAME_PROMPT: &'static str = "Please provide a name for your project";

/// The prompt for the version.
pub const VERSION_PROMPT: &'static str = "Please provide a version for your project";

/// The prompt for the group.
pub const GROUP_ID_PROMPT: &'static str = "Please provide a group id for your project";

/// The prompt for the destination, which is never displayed: the path is
/// optional.
pub const PATH_PROMPT: &'static str =
    "Please provide a path for your project, leave empty for current directory";

/// How a run ends, before anything is written.
pub struct Execution {
    /// The plan, or why there is none.
    pub outcome: Result<Seq<FileOperationView>, GeneratorError>,
    /// The terminal afterwards.
    pub console: ConsoleView,
}

/// A run that stops with `error`.
pub open spec fn failed(error: GeneratorError, console: ConsoleView) -> Execution {
    Execution { outcome: Err(error), console }
}

/// The run for a Spigot project, once the project type is known: name,
/// version and group are mandatory, in this order, the path is optional. The
/// first mandatory parameter without a value ends the run.
pub open spec fn spigot_executed(
    args: Seq<Seq<char>>,
    console: ConsoleView,
    current_dir: Seq<char>,
) -> Execution {
    let name = resolution(args, console, NAME_PROMPT@, true);
    let version = resolution(name.args, name.console, VERSION_PROMPT@, true);
    let group_id = resolution(version.args, version.console, GROUP_ID_PROMPT@, true);
    let path = resolution(group_id.args, group_id.console, PATH_PROMPT@, false);
    if name.value is None {
        failed(GeneratorError::MissingMandatoryParameter, name.console)
    } else if version.value is None {
        failed(GeneratorError::MissingMandatoryParameter, version.console)
    } else if group_id.value is None {
        failed(GeneratorError::MissingMandatoryParameter, group_id.console)
    } else {
        let project = normalized(
            name.value->0,
            version.value->0,
            group_id.value->0,
            path.value,
            current_dir,
        );
        Execution {
            outcome: Ok(scaffold(project, str_lowercase(project.name))),
            console: path.console,
        }
    }
}

/// A whole run: the project type comes first, and a type that is missing or
/// names no generator ends the run before anything else is asked.
pub open spec fn executed(
    args: Seq<Seq<char>>,
    console: ConsoleView,
    current_dir: Seq<char>,
) -> Execution {
    let kind = resolution(args, console, PROJECT_TYPE_PROMPT@, true);
    match kind.value {
        None => failed(GeneratorError::UnableToDetermineProjectType, kind.console),
        Some(keyword) => match project_type_of(str_lowercase(keyword)) {
            None => failed(GeneratorError::UnableToDetermineProjectType, kind.console),
            Some(ProjectGeneratorType::Spigot) => spigot_executed(
                kind.args,
                kind.console,
                current_dir,
            ),
        },
    }
}

/// What the result of `execute` stands for.
pub open spec fn outcome_of(result: Result<Vec<FileOperation>, GeneratorError>) -> Result<
    Seq<FileOperationView>,
    GeneratorError,
> {
    match result {
        Ok(plan) => Ok(operations(plan@)),
        Err(error) => Err(error),
    }
}

/// Resolves the parameters of a Spigot project and plans it.
pub fn execute_spigot(args: &mut Vec<String>, console: &mut Console, current_dir: &str) -> (result:
    Result<Vec<FileOperation>, GeneratorError>)
    ensures
        outcome_of(result) == spigot_executed(
            texts(old(args)@),
            old(console)@,
            current_dir@,
        ).outcome,
        final(console)@ == spigot_executed(texts(old(args)@), old(console)@, current_dir@).console,
{
    let name = match get_parameter(args, console, NAME_PROMPT, true) {
        Some(name) => name,
        None => {
            return Err(GeneratorError::MissingMandatoryParameter);
        },
    };
    let version = match get_parameter(args, console, VERSION_PROMPT, true) {
        Some(version) => version,
        None => {
            return Err(GeneratorError::MissingMandatoryParameter);
        },
    };
    let group_id = match get_parameter(args, console, GROUP_ID_PROMPT, true) {
        Some(group_id) => group_id,
        None => {
            return Err(GeneratorError::MissingMandatoryParameter);
        },
    };
    let path = get_parameter(args, console, PATH_PROMPT, false);
    let spigot_generator = SpigotGenerator::new(name, version, group_id, path, current_dir);
    Ok(spigot_generator.generate_project())
}

/// One run, from what the user supplied to the plan of what to write.
///
/// `args` are the arguments of the command line without the program's name,
/// `console` the terminal, `current_dir` the directory that the destination
/// is resolved against. Nothing is written here: on success the result is
/// the plan, to be carried out in order.
pub fn execute(args: Vec<String>, console: &mut Console, current_dir: &str) -> (result: Result<
    Vec<FileOperation>,
    GeneratorError,
>)
    ensures
        outcome_of(result) == executed(texts(args@), old(console)@, current_dir@).outcome,
        final(console)@ == executed(texts(args@), old(console)@, current_dir@).console,
{
    let mut args = args;
    let project_type = match get_parameter(&mut args, console, PROJECT_TYPE_PROMPT, true) {
        Some(project_type) => project_type,
        None => {
            return Err(GeneratorError::UnableToDetermineProjectType);
        },
    };
    match get_project_type(project_type.as_str()) {
        Some(ProjectGeneratorType::Spigot) => execute_spigot(&mut args, console, current_dir),
        None => Err(GeneratorError::UnableToDetermineProjectType),
    }
}

} // verus!
