//! The kinds of project that can be generated, and the parts of generating one.

pub mod content_generator;
pub mod file_operations;
pub mod spigot;
pub mod version;

use crate::text::{same_text, str_lowercase};
use vstd::prelude::*;

verus! {

/// The kinds of project for which there is a generator.
#[derive(Clone, Copy, Debug, PartialEq, Eq, Structural)]
pub enum ProjectGeneratorType {
    /// A plugin for a Spigot server.
    Spigot,
}

/// The kind that a keyword in lower case names, if it names one.
pub open spec fn project_type_of(keyword: Seq<char>) -> Option<ProjectGeneratorType> {
    if keyword == "spigot"@ {
        Some(ProjectGeneratorType::Spigot)
    } else {
        None
    }
}

/// The kind of project that `keyword` names. The keyword is matched as it
/// stands: letter case counts.
pub fn project_type_of_keyword(keyword: &str) -> (kind: Option<ProjectGeneratorType>)
    ensures
        kind == project_type_of(keyword@),
{
    if same_text(keyword, "spigot") {
        Some(ProjectGeneratorType::Spigot)
    } else {
        None
    }
}

/// The kind of project that the user asked for, whatever the letter case of
/// what was typed: the kind that the text names once it is in lower case.
pub fn get_project_type(project_generator_type: &str) -> (kind: Option<ProjectGeneratorType>)
    ensures
        kind == project_type_of(str_lowercase(project_generator_type@)),
{
    let keyword = project_generator_type.to_lowercase();
    project_type_of_keyword(keyword.as_str())
}

} // verus!
