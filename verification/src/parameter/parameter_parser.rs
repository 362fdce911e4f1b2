//! Reading a parameter of any type: from an argument, or from the terminal
//! until an answer can be read as a value.
//!
//! How a text is read as a value is the caller's: a function from a text to
//! an optional value. The contracts say which texts it was applied to and
//! what became of its answers.

use crate::console::{lemma_first_line_length, Console, ConsoleView};
use crate::parameter_reader::answer;
use crate::text::{texts, trim};
use vstd::prelude::*;

verus! {

/// What is displayed after an answer that has no value.
pub const INVALID_INPUT: &'static str = "Invalid input. Please enter a valid value:";

/// Whether `parse` can answer `value` for the text `text`.
pub open spec fn parses_to<O, P: Fn(&str) -> Option<O>>(
    parse: P,
    text: Seq<char>,
    value: Option<O>,
) -> bool {
    exists|s: &str| s@ == text && parse.ensures((s,), value)
}

/// Whether asking the terminal `console`, line by line, can end with `value`
/// and the terminal `after`: the first answer in which `parse` finds a
/// value gives the value; each answer before it has none, and is followed by
/// the notice that the input was invalid; there is no value where the input
/// is exhausted first.
pub open spec fn read_until_parsed<O, P: Fn(&str) -> Option<O>>(
    parse: P,
    console: ConsoleView,
    value: Option<O>,
    after: ConsoleView,
) -> bool
    decreases console.unread.len(),
{
    match answer(console) {
        None => value is None && after == console.after_read(),
        Some(text) => {
            ||| (value is Some && parses_to(parse, text, value) && after == console.after_read())
            ||| (parses_to(parse, text, None::<O>) && console.after_read().unread.len()
                < console.unread.len() && read_until_parsed(
                parse,
                console.after_read().after_display(INVALID_INPUT@),
                value,
                after,
            ))
        },
    }
}

/// Whether resolving a parameter can end with `value` and the terminal
/// `after`: the argument gives the value where `parse` finds one in it, and
/// the terminal is not touched; else `prompt` is displayed and the terminal
/// asked.
pub open spec fn parameter_resolved<O, P: Fn(&str) -> Option<O>>(
    parse: P,
    argument: Option<Seq<char>>,
    console: ConsoleView,
    prompt: Seq<char>,
    value: Option<O>,
    after: ConsoleView,
) -> bool {
    ||| (argument is Some && value is Some && parses_to(parse, argument->0, value) && after
        == console)
    ||| ((argument is None || parses_to(parse, argument->0, None::<O>)) && read_until_parsed(
        parse,
        console.after_display(prompt),
        value,
        after,
    ))
}

/// The argument at `index`, if there is one.
pub open spec fn argument_at(args: Seq<Seq<char>>, index: int) -> Option<Seq<char>> {
    if 0 <= index < args.len() {
        Some(args[index])
    } else {
        None
    }
}

/// The value of the argument at `index`: none where there is no such
/// argument or `parse` finds no value in it.
pub fn get_app_argument<T, P: Fn(&str) -> Option<T>>(
    args: &[String],
    index: usize,
    parse: &P,
) -> (value: Option<T>)
    requires
        forall|s: &str| parse.requires((s,)),
    ensures
        index >= args@.len() ==> value is None,
        index < args@.len() ==> parses_to(*parse, args@[index as int]@, value),
{
    if index < args.len() {
        parse(args[index].as_str())
    } else {
        None
    }
}

/// Asks the terminal until an answer has a value. Each answer is a line
/// without the white space around it; after each answer without a value the
/// notice `INVALID_INPUT` is displayed.
pub fn get_user_input<T, P: Fn(&str) -> Option<T>>(stdin: &mut Console, parse: &P) -> (value:
    Option<T>)
    requires
        forall|s: &str| parse.requires((s,)),
    ensures
        read_until_parsed(*parse, old(stdin)@, value, final(stdin)@),
{
    loop
        invariant
            forall|s: &str| parse.requires((s,)),
            forall|v: Option<T>, after: ConsoleView| #[trigger]
                read_until_parsed(*parse, stdin@, v, after) ==> read_until_parsed(
                    *parse,
                    old(stdin)@,
                    v,
                    after,
                ),
        decreases stdin@.unread.len(),
    {
        let ghost before = stdin@;
        proof {
            lemma_first_line_length(before.unread);
        }
        let buffer = match stdin.read_line() {
            Some(buffer) => buffer,
            None => {
                assert(read_until_parsed(*parse, before, None::<T>, stdin@));
                return None;
            },
        };
        let text = trim(buffer.as_str());
        match parse(text.as_str()) {
            Some(value) => {
                assert(parses_to(*parse, answer(before)->0, Some(value)));
                assert(read_until_parsed(*parse, before, Some(value), stdin@));
                return Some(value);
            },
            None => {
                assert(parses_to(*parse, answer(before)->0, None::<T>));
                stdin.display(INVALID_INPUT);
                assert forall|v: Option<T>, after: ConsoleView| #[trigger]
                    read_until_parsed(*parse, stdin@, v, after) implies read_until_parsed(
                    *parse,
                    old(stdin)@,
                    v,
                    after,
                ) by {
                    assert(read_until_parsed(*parse, before, v, after));
                }
            },
        }
    }
}

/// The parameter at `index`: the value of that argument where it has one,
/// and nothing is displayed or read; else `input_string` is displayed and
/// the terminal asked until an answer has a value. There is no value where
/// the terminal runs out of answers first.
pub fn get_parameter<O, P: Fn(&str) -> Option<O>>(
    args: &[String],
    index: usize,
    stdin: &mut Console,
    input_string: &str,
    parse: P,
) -> (value: Option<O>)
    requires
        forall|s: &str| parse.requires((s,)),
    ensures
        parameter_resolved(
            parse,
            argument_at(texts(args@), index as int),
            old(stdin)@,
            input_string@,
            value,
            final(stdin)@,
        ),
{
    let plugin_version = get_app_argument::<O, P>(args, index, &parse);
    match plugin_version {
        Some(version) => Some(version),
        None => {
            stdin.display(input_string);
            get_user_input(stdin, &parse)
        },
    }
}

} // verus!
