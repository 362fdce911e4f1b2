//! The template of a Spigot plugin and how it reads its parameters.

use crate::console::{Console, ConsoleView};
use crate::parameter_reader::{answer, answer_text, prompted};
use crate::template::TemplateParameterReader;
use crate::text::{texts, trim};
use vstd::prelude::*;

verus! {

/// The prompt for the name of the project.
pub const PROJECT_NAME_PROMPT: &'static str = "Enter the project name:";

/// The prompt for the version.
pub const VERSION_PROMPT: &'static str = "Enter the version:";

/// The prompt for the group.
pub const GROUP_ID_PROMPT: &'static str = "Enter the group id:";

/// The parameters of a Spigot plugin. A parameter that is empty has not been
/// given yet.
#[derive(Debug, PartialEq)]
pub struct SpigotTemplateGenerator {
    project_name: String,
    version: String,
    group_id: String,
}

/// What a `SpigotTemplateGenerator` stands for.
pub struct SpigotTemplateView {
    pub project_name: Seq<char>,
    pub version: Seq<char>,
    pub group_id: Seq<char>,
}

/// A parameter and the terminal, after the parameter was settled.
pub struct Settled {
    pub value: Seq<char>,
    pub console: ConsoleView,
}

/// The argument at `index` where there is one, or else what was there
/// before.
pub open spec fn argument_or(args: Seq<Seq<char>>, index: int, before: Seq<char>) -> Seq<char> {
    if index < args.len() {
        args[index]
    } else {
        before
    }
}

/// Settles one parameter: a value that is not empty stands, and the
/// terminal is not touched; for an empty one `prompt` is displayed and the
/// answer taken, which is empty again where the terminal has nothing to
/// read.
pub open spec fn settled(value: Seq<char>, console: ConsoleView, prompt: Seq<char>) -> Settled {
    if value.len() == 0 {
        Settled { value: answer_text(answer(console)), console: prompted(console, prompt) }
    } else {
        Settled { value, console }
    }
}

impl View for SpigotTemplateGenerator {
    type V = SpigotTemplateView;

    closed spec fn view(&self) -> SpigotTemplateView {
        SpigotTemplateView {
            project_name: self.project_name@,
            version: self.version@,
            group_id: self.group_id@,
        }
    }
}

impl Default for SpigotTemplateGenerator {
    /// A template without any parameter.
    fn default() -> (template: Self)
        ensures
            template@.project_name.len() == 0,
            template@.version.len() == 0,
            template@.group_id.len() == 0,
    {
        SpigotTemplateGenerator {
            project_name: String::new(),
            version: String::new(),
            group_id: String::new(),
        }
    }
}

/// Settles one parameter on the terminal.
fn settle(value: String, input_buffer: &mut Console, prompt: &str) -> (result: String)
    ensures
        result@ == settled(value@, old(input_buffer)@, prompt@).value,
        final(input_buffer)@ == settled(value@, old(input_buffer)@, prompt@).console,
{
    if value.as_str().is_empty() {
        input_buffer.display(prompt);
        SpigotTemplateGenerator::ask_user(input_buffer)
    } else {
        value
    }
}

impl SpigotTemplateGenerator {
    /// Reads one line from the terminal and returns it without the white
    /// space around it; the result is empty where there is nothing to read.
    pub fn ask_user(input_reader: &mut Console) -> (input: String)
        ensures
            input@ == answer_text(answer(old(input_reader)@)),
            final(input_reader)@ == old(input_reader)@.after_read(),
    {
        match input_reader.read_line() {
            Some(line) => trim(line.as_str()),
            None => String::new(),
        }
    }

    /// The name of the project.
    pub fn project_name(&self) -> (project_name: &String)
        ensures
            project_name@ == self@.project_name,
    {
        &self.project_name
    }

    /// The version.
    pub fn version(&self) -> (version: &String)
        ensures
            version@ == self@.version,
    {
        &self.version
    }

    /// The group.
    pub fn group_id(&self) -> (group_id: &String)
        ensures
            group_id@ == self@.group_id,
    {
        &self.group_id
    }
}

impl TemplateParameterReader for SpigotTemplateGenerator {
    /// The arguments after the program's name are, in this order, the name
    /// of the project, the version and the group. Each parameter that is
    /// still empty after that is asked for on the terminal, in the same
    /// order.
    fn read_parameters(&mut self, args: Vec<String>, input_buffer: &mut Console)
        ensures
            ({
                let name = settled(
                    argument_or(texts(args@), 1, old(self)@.project_name),
                    old(input_buffer)@,
                    PROJECT_NAME_PROMPT@,
                );
                let version = settled(
                    argument_or(texts(args@), 2, old(self)@.version),
                    name.console,
                    VERSION_PROMPT@,
                );
                let group_id = settled(
                    argument_or(texts(args@), 3, old(self)@.group_id),
                    version.console,
                    GROUP_ID_PROMPT@,
                );
                &&& final(self)@.project_name == name.value
                &&& final(self)@.version == version.value
                &&& final(self)@.group_id == group_id.value
                &&& final(input_buffer)@ == group_id.console
            }),
    {
        let mut project_name = self.project_name.clone();
        let mut version = self.version.clone();
        let mut group_id = self.group_id.clone();
        if args.len() > 1 {
            project_name = args[1].clone();
        }
        if args.len() > 2 {
            version = args[2].clone();
        }
        if args.len() > 3 {
            group_id = args[3].clone();
        }
        self.project_name = settle(project_name, input_buffer, PROJECT_NAME_PROMPT);
        self.version = settle(version, input_buffer, VERSION_PROMPT);
        self.group_id = settle(group_id, input_buffer, GROUP_ID_PROMPT);
    }
}

} // verus!
