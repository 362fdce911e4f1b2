//! What a template of a project has to offer.

use crate::console::Console;
use vstd::prelude::*;

verus! {

/// A template that can render itself.
pub trait TemplateGenerator {
    /// The rendered template, or the failure that kept it from rendering.
    fn generate(&self) -> Result<String, std::io::Error>;
}

/// A template that takes its parameters from the command line and, where
/// they are missing there, from the terminal.
pub trait TemplateParameterReader {
    /// Reads the parameters: `args` is the whole command line, the program's
    /// name first, and `input_reader` the terminal.
    fn read_parameters(&mut self, args: Vec<String>, input_reader: &mut Console);
}

} // verus!
