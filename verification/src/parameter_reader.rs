//! One parameter at a time: from the arguments given on the command line
//! while there are any, from the terminal where the parameter is mandatory.

use crate::console::{Console, ConsoleView};
use crate::text::{optional_text, texts, trim, trimmed};
use vstd::prelude::*;

verus! {

/// What resolving one parameter yields.
pub struct Resolution {
    /// The value, if the parameter has one.
    pub value: Option<Seq<char>>,
    /// The arguments that are left.
    pub args: Seq<Seq<char>>,
    /// The terminal afterwards.
    pub console: ConsoleView,
}

/// The answer to a prompt: the line that was read, without the white space
/// around it. An empty answer is an answer; there is none where there was
/// no line.
pub open spec fn answer(console: ConsoleView) -> Option<Seq<char>> {
    match console.next_line() {
        Some(line) => Some(trimmed(line)),
        None => None,
    }
}

/// The answer as text: empty where there is none.
pub open spec fn answer_text(answer: Option<Seq<char>>) -> Seq<char> {
    match answer {
        Some(text) => text,
        None => Seq::empty(),
    }
}

/// The terminal after `prompt` was displayed and one line was asked for.
pub open spec fn prompted(console: ConsoleView, prompt: Seq<char>) -> ConsoleView {
    console.after_display(prompt).after_read()
}

/// Resolving one parameter.
///
/// While arguments are left, the first of them is the value and leaves the
/// list, whether the parameter is mandatory or not, and the terminal is not
/// touched. With no argument left, a mandatory parameter is asked for on the
/// terminal: the prompt is displayed, one line is read, and the line without
/// the white space around it is the value, be it empty; there is no value
/// where the terminal has nothing more to read. An optional parameter without
/// an argument has no value, and the terminal is not touched.
pub open spec fn resolution(
    args: Seq<Seq<char>>,
    console: ConsoleView,
    prompt: Seq<char>,
    mandatory: bool,
) -> Resolution {
    if args.len() > 0 {
        Resolution { value: Some(args[0]), args: args.skip(1), console }
    } else if mandatory {
        Resolution { value: answer(console), args, console: prompted(console, prompt) }
    } else {
        Resolution { value: None, args, console }
    }
}

/// An argument wins over the terminal: while the list is not empty, the
/// value is its first element, unchanged, the list loses exactly that
/// element, and nothing is displayed or read, mandatory or not.
pub proof fn lemma_argument_is_taken(
    args: Seq<Seq<char>>,
    console: ConsoleView,
    prompt: Seq<char>,
    mandatory: bool,
)
    requires
        args.len() > 0,
    ensures
        resolution(args, console, prompt, mandatory).value == Some(args[0]),
        resolution(args, console, prompt, mandatory).args.len() == args.len() - 1,
        seq![args[0]] + resolution(args, console, prompt, mandatory).args == args,
        resolution(args, console, prompt, mandatory).console == console,
{
    assert(seq![args[0]] + args.skip(1) =~= args);
}

/// An optional parameter is never asked for: with no argument left it has
/// no value, and nothing is displayed or read.
pub proof fn lemma_optional_is_not_asked(
    args: Seq<Seq<char>>,
    console: ConsoleView,
    prompt: Seq<char>,
)
    requires
        args.len() == 0,
    ensures
        resolution(args, console, prompt, false).value is None,
        resolution(args, console, prompt, false).args == args,
        resolution(args, console, prompt, false).console == console,
{
}

/// Displays `input` and reads the answer.
pub fn get_user_input(buffer_reader: &mut Console, input: &str) -> (value: Option<String>)
    ensures
        optional_text(value) == answer(old(buffer_reader)@),
        final(buffer_reader)@ == prompted(old(buffer_reader)@, input@),
{
    buffer_reader.display(input);
    match buffer_reader.read_line() {
        Some(line) => Some(trim(line.as_str())),
        None => None,
    }
}

/// Resolves one parameter, as `resolution` says. An argument is handed out
/// as the very string that stood in the list.
pub fn get_parameter(
    args: &mut Vec<String>,
    buffer_reader: &mut Console,
    input: &str,
    mandatory: bool,
) -> (value: Option<String>)
    ensures
        optional_text(value) == resolution(
            texts(old(args)@),
            old(buffer_reader)@,
            input@,
            mandatory,
        ).value,
        texts(final(args)@) == resolution(
            texts(old(args)@),
            old(buffer_reader)@,
            input@,
            mandatory,
        ).args,
        final(buffer_reader)@ == resolution(
            texts(old(args)@),
            old(buffer_reader)@,
            input@,
            mandatory,
        ).console,
        old(args)@.len() > 0 ==> value == Some(old(args)@[0]) && final(args)@ == old(args)@.skip(1),
        old(args)@.len() == 0 ==> final(args)@ == old(args)@,
{
    if args.len() > 0 {
        let value = args.remove(0);
        assert(args@ =~= old(args)@.skip(1));
        assert(texts(args@) =~= texts(old(args)@).skip(1));
        Some(value)
    } else if mandatory {
        get_user_input(buffer_reader, input)
    } else {
        None
    }
}

} // verus!
