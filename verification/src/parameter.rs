//! Parameters of the application, and ways of collecting them.
//!
//! A parameter of any type is taken from the argument at a given index where
//! that argument can be read as a value of the type, and else asked for on
//! the terminal until an answer can.

pub mod builder;
pub mod parameter_parser;

use crate::console::Console;
use crate::parameter::parameter_parser::{
    argument_at, get_user_input, parameter_resolved, parses_to,
};
use vstd::prelude::*;

verus! {

/// What is displayed before the terminal is asked.
pub const PLUGIN_VERSION_PROMPT: &'static str = "Please enter the plugin version:";

/// The characters of each string slice of a list.
pub open spec fn slice_texts(strings: Seq<&str>) -> Seq<Seq<char>> {
    strings.map_values(|s: &str| s@)
}

/// The value of the argument at `index`: none where there is no such
/// argument or `parse` finds no value in it.
pub fn get_app_argument<T, P: Fn(&str) -> Option<T>>(args: &[&str], index: usize, parse: &P) -> (value:
    Option<T>)
    requires
        forall|s: &str| parse.requires((s,)),
    ensures
        index >= args@.len() ==> value is None,
        index < args@.len() ==> parses_to(*parse, args@[index as int]@, value),
{
    if index < args.len() {
        parse(args[index])
    } else {
        None
    }
}

/// The parameter at `index`: the value of that argument where it has one,
/// and nothing is displayed or read; else the prompt is displayed and the
/// terminal asked until an answer has a value. There is no value where the
/// terminal runs out of answers first.
pub fn get_parameter<O, P: Fn(&str) -> Option<O>>(
    args: &[&str],
    index: usize,
    stdin: &mut Console,
    parse: P,
) -> (value: Option<O>)
    requires
        forall|s: &str| parse.requires((s,)),
    ensures
        parameter_resolved(
            parse,
            argument_at(slice_texts(args@), index as int),
            old(stdin)@,
            PLUGIN_VERSION_PROMPT@,
            value,
            final(stdin)@,
        ),
{
    let plugin_version = get_app_argument::<O, P>(args, index, &parse);
    match plugin_version {
        Some(version) => Some(version),
        None => {
            stdin.display(PLUGIN_VERSION_PROMPT);
            get_user_input(stdin, &parse)
        },
    }
}

} // verus!
