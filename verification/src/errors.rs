//! The ways in which generating a project fails.

use vstd::prelude::*;

verus! {

/// `std::io::Error`: the failure that the operating system reports for a
/// file operation. It is carried along, never looked into.
#[verifier::external_type_specification]
#[verifier::external_body]
pub struct ExIoError(std::io::Error);

/// Why no project was generated, or only a part of one.
#[derive(Debug)]
pub enum GeneratorError {
    /// The project type names no known generator.
    UnableToDetermineProjectType,
    /// A parameter that must have a value could not be read.
    MissingMandatoryParameter,
    /// A file could not be written.
    FileCreationError(std::io::Error),
    /// A directory could not be created.
    DirectoryCreationError(std::io::Error),
}

/// `Display` of `std::io::Error`: how the operating system's failure reads.
/// The wording is the platform's, so nothing is promised of it.
#[verifier::external_body]
fn cause_text(cause: &std::io::Error) -> String {
    format!("{}", cause)
}

impl GeneratorError {
    /// The wording that every description of this failure starts with; for
    /// the failures without a cause it is the whole description.
    pub open spec fn headline(&self) -> Seq<char> {
        match self {
            GeneratorError::UnableToDetermineProjectType => "Unable to determine the project generator"@,
            GeneratorError::MissingMandatoryParameter => "Unable to read a mandatory parameter"@,
            GeneratorError::FileCreationError(_) => "Unable to create file: "@,
            GeneratorError::DirectoryCreationError(_) => "Unable to create directory: "@,
        }
    }

    /// Whether this failure wraps a cause reported by the operating system.
    pub open spec fn has_cause(&self) -> bool {
        self is FileCreationError || self is DirectoryCreationError
    }

    /// The description shown to the user: the headline, followed by the
    /// cause where there is one.
    pub fn describe(&self) -> (description: String)
        ensures
            self.headline().is_prefix_of(description@),
            !self.has_cause() ==> description@ == self.headline(),
    {
        match self {
            GeneratorError::UnableToDetermineProjectType => {
                "Unable to determine the project generator".to_owned()
            },
            GeneratorError::MissingMandatoryParameter => {
                "Unable to read a mandatory parameter".to_owned()
            },
            GeneratorError::FileCreationError(cause) => {
                let description = "Unable to create file: ".to_owned().concat(
                    cause_text(cause).as_str(),
                );
                assert(self.headline() =~= description@.subrange(0, self.headline().len() as int));
                description
            },
            GeneratorError::DirectoryCreationError(cause) => {
                let description = "Unable to create directory: ".to_owned().concat(
                    cause_text(cause).as_str(),
                );
                assert(self.headline() =~= description@.subrange(0, self.headline().len() as int));
                description
            },
        }
    }
}

} // verus!
