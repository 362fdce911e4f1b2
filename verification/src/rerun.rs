//! Running a run again once more input has arrived.
//!
//! A run is a function of the arguments and of the input typed so far. A
//! caller that reads the terminal line by line can therefore run it on what
//! has been typed, display what the run displayed, and, where the run was
//! starved of input, read one more line and run it again. What is proved
//! here is what makes that sound: more input never takes back a prompt that
//! an earlier run displayed.

use crate::console::{first_line, ConsoleView};
use crate::parameter_reader::resolution;
use crate::project_generator::{project_type_of, ProjectGeneratorType};
use crate::text::str_lowercase;
use crate::{
    executed, spigot_executed, GROUP_ID_PROMPT, NAME_PROMPT, PATH_PROMPT, PROJECT_TYPE_PROMPT,
    VERSION_PROMPT,
};
use vstd::prelude::*;

verus! {

/// Whether `unread` ends where a line ends: it is empty, or its last
/// character is a line feed.
pub open spec fn ends_with_line(unread: Seq<char>) -> bool {
    unread.len() == 0 || unread.last() == '\n'
}

/// The terminal with `more` input behind what is unread.
pub open spec fn with_more(console: ConsoleView, more: Seq<char>) -> ConsoleView {
    ConsoleView {
        unread: console.unread + more,
        displayed: console.displayed,
        starved: console.starved,
    }
}

proof fn lemma_first_line_of_more(unread: Seq<char>, more: Seq<char>)
    requires
        unread.len() > 0,
        ends_with_line(unread),
    ensures
        first_line(unread + more) == first_line(unread),
        (unread + more).skip(first_line(unread).len() as int) == unread.skip(
            first_line(unread).len() as int,
        ) + more,
        ends_with_line(unread.skip(first_line(unread).len() as int)),
        first_line(unread).len() <= unread.len(),
    decreases unread.len(),
{
    let longer = unread + more;
    assert(longer[0] == unread[0]);
    assert(longer.skip(1) =~= unread.skip(1) + more);
    if unread[0] == '\n' {
        if unread.len() > 1 {
            assert(unread.skip(1).last() == unread.last());
        }
    } else {
        assert(unread.len() > 1);
        assert(unread.skip(1).last() == unread.last());
        lemma_first_line_of_more(unread.skip(1), more);
        let rest = first_line(unread.skip(1)).len() as int;
        assert(first_line(unread).len() == rest + 1);
        assert(longer.skip(rest + 1) =~= longer.skip(1).skip(rest));
        assert(unread.skip(rest + 1) =~= unread.skip(1).skip(rest));
    }
}

/// With more input behind it, resolving a parameter either goes as before,
/// or had been starved before: then it had no value, and what both displayed
/// is the same.
proof fn lemma_resolution_of_more(
    args: Seq<Seq<char>>,
    console: ConsoleView,
    more: Seq<char>,
    prompt: Seq<char>,
    mandatory: bool,
)
    requires
        ends_with_line(console.unread),
    ensures
        ({
            let before = resolution(args, console, prompt, mandatory);
            let after = resolution(args, with_more(console, more), prompt, mandatory);
            ||| {
                &&& after.value == before.value
                &&& after.args == before.args
                &&& after.console == with_more(before.console, more)
                &&& ends_with_line(before.console.unread)
            }
            ||| {
                &&& before.value is None
                &&& after.console.displayed == before.console.displayed
            }
        }),
{
    if args.len() == 0 && mandatory && console.unread.len() > 0 {
        lemma_first_line_of_more(console.unread, more);
        let before = resolution(args, console, prompt, mandatory);
        let after = resolution(args, with_more(console, more), prompt, mandatory);
        assert(after.console.unread =~= with_more(before.console, more).unread);
    }
}

/// Resolving a parameter takes no prompt back.
proof fn lemma_resolution_keeps_prompts(
    args: Seq<Seq<char>>,
    console: ConsoleView,
    prompt: Seq<char>,
    mandatory: bool,
)
    ensures
        console.displayed.is_prefix_of(resolution(args, console, prompt, mandatory).console.displayed),
{
    let after = resolution(args, console, prompt, mandatory).console.displayed;
    assert(console.displayed =~= after.subrange(0, console.displayed.len() as int));
}

proof fn lemma_prefix_chain(a: Seq<Seq<char>>, b: Seq<Seq<char>>, c: Seq<Seq<char>>)
    requires
        a.is_prefix_of(b),
        b.is_prefix_of(c),
    ensures
        a.is_prefix_of(c),
{
    assert(a =~= c.subrange(0, a.len() as int));
}

/// The run for a Spigot project takes no prompt back.
proof fn lemma_spigot_keeps_prompts(
    args: Seq<Seq<char>>,
    console: ConsoleView,
    current_dir: Seq<char>,
)
    ensures
        console.displayed.is_prefix_of(spigot_executed(args, console, current_dir).console.displayed),
{
    let name = resolution(args, console, NAME_PROMPT@, true);
    let version = resolution(name.args, name.console, VERSION_PROMPT@, true);
    let group_id = resolution(version.args, version.console, GROUP_ID_PROMPT@, true);
    let path = resolution(group_id.args, group_id.console, PATH_PROMPT@, false);
    lemma_resolution_keeps_prompts(args, console, NAME_PROMPT@, true);
    lemma_resolution_keeps_prompts(name.args, name.console, VERSION_PROMPT@, true);
    lemma_resolution_keeps_prompts(version.args, version.console, GROUP_ID_PROMPT@, true);
    lemma_resolution_keeps_prompts(group_id.args, group_id.console, PATH_PROMPT@, false);
    lemma_prefix_chain(console.displayed, name.console.displayed, version.console.displayed);
    lemma_prefix_chain(console.displayed, version.console.displayed, group_id.console.displayed);
    lemma_prefix_chain(console.displayed, group_id.console.displayed, path.console.displayed);
}

proof fn lemma_spigot_of_more(
    args: Seq<Seq<char>>,
    console: ConsoleView,
    more: Seq<char>,
    current_dir: Seq<char>,
)
    requires
        ends_with_line(console.unread),
    ensures
        spigot_executed(args, console, current_dir).console.displayed.is_prefix_of(
            spigot_executed(args, with_more(console, more), current_dir).console.displayed,
        ),
{
    let name = resolution(args, console, NAME_PROMPT@, true);
    let version = resolution(name.args, name.console, VERSION_PROMPT@, true);
    let group_id = resolution(version.args, version.console, GROUP_ID_PROMPT@, true);
    let path = resolution(group_id.args, group_id.console, PATH_PROMPT@, false);
    let more_name = resolution(args, with_more(console, more), NAME_PROMPT@, true);
    let more_version = resolution(more_name.args, more_name.console, VERSION_PROMPT@, true);
    let more_group_id = resolution(
        more_version.args,
        more_version.console,
        GROUP_ID_PROMPT@,
        true,
    );
    let more_path = resolution(more_group_id.args, more_group_id.console, PATH_PROMPT@, false);
    let short_end = spigot_executed(args, console, current_dir).console.displayed;
    let long_end = spigot_executed(args, with_more(console, more), current_dir).console.displayed;
    lemma_resolution_keeps_prompts(more_name.args, more_name.console, VERSION_PROMPT@, true);
    lemma_resolution_keeps_prompts(
        more_version.args,
        more_version.console,
        GROUP_ID_PROMPT@,
        true,
    );
    lemma_resolution_keeps_prompts(
        more_group_id.args,
        more_group_id.console,
        PATH_PROMPT@,
        false,
    );
    lemma_prefix_chain(
        more_name.console.displayed,
        more_version.console.displayed,
        more_group_id.console.displayed,
    );
    lemma_prefix_chain(
        more_name.console.displayed,
        more_group_id.console.displayed,
        more_path.console.displayed,
    );
    lemma_prefix_chain(
        more_version.console.displayed,
        more_group_id.console.displayed,
        more_path.console.displayed,
    );
    lemma_resolution_of_more(args, console, more, NAME_PROMPT@, true);
    if name.value is None {
        assert(short_end.is_prefix_of(long_end));
    } else {
        lemma_resolution_of_more(name.args, name.console, more, VERSION_PROMPT@, true);
        if version.value is None {
            assert(short_end.is_prefix_of(long_end));
        } else {
            lemma_resolution_of_more(version.args, version.console, more, GROUP_ID_PROMPT@, true);
            if group_id.value is None {
                assert(short_end.is_prefix_of(long_end));
            } else {
                lemma_resolution_of_more(
                    group_id.args,
                    group_id.console,
                    more,
                    PATH_PROMPT@,
                    false,
                );
                assert(short_end.is_prefix_of(long_end));
            }
        }
    }
}

/// More input takes no prompt back: where the input typed so far ends with
/// a complete line, what a run displays on it is the beginning of what the
/// run displays once `more` has been typed behind it.
pub proof fn lemma_more_input_keeps_prompts(
    args: Seq<Seq<char>>,
    console: ConsoleView,
    more: Seq<char>,
    current_dir: Seq<char>,
)
    requires
        ends_with_line(console.unread),
    ensures
        executed(args, console, current_dir).console.displayed.is_prefix_of(
            executed(args, with_more(console, more), current_dir).console.displayed,
        ),
{
    let kind = resolution(args, console, PROJECT_TYPE_PROMPT@, true);
    let more_kind = resolution(args, with_more(console, more), PROJECT_TYPE_PROMPT@, true);
    lemma_resolution_of_more(args, console, more, PROJECT_TYPE_PROMPT@, true);
    if kind.value is None {
        match more_kind.value {
            Some(keyword) => {
                if project_type_of(str_lowercase(keyword)) is Some {
                    lemma_spigot_keeps_prompts(more_kind.args, more_kind.console, current_dir);
                }
            },
            None => {},
        }
    } else {
        if project_type_of(str_lowercase(kind.value->0)) is Some {
            lemma_spigot_of_more(kind.args, kind.console, more, current_dir);
        }
    }
}

/// A run that was not starved of input has its answer: where the input
/// typed so far ends with a complete line and the run on it did not ask for
/// a line in vain, more input changes neither the outcome nor what is
/// displayed.
pub proof fn lemma_settled_run_stays(
    args: Seq<Seq<char>>,
    console: ConsoleView,
    more: Seq<char>,
    current_dir: Seq<char>,
)
    requires
        ends_with_line(console.unread),
        !executed(args, console, current_dir).console.starved,
    ensures
        executed(args, with_more(console, more), current_dir).outcome == executed(
            args,
            console,
            current_dir,
        ).outcome,
        executed(args, with_more(console, more), current_dir).console == with_more(
            executed(args, console, current_dir).console,
            more,
        ),
{
    let kind = resolution(args, console, PROJECT_TYPE_PROMPT@, true);
    lemma_settled_resolution(args, console, more, PROJECT_TYPE_PROMPT@, true);
    if kind.value is Some && project_type_of(str_lowercase(kind.value->0)) is Some {
        let name = resolution(kind.args, kind.console, NAME_PROMPT@, true);
        let version = resolution(name.args, name.console, VERSION_PROMPT@, true);
        let group_id = resolution(version.args, version.console, GROUP_ID_PROMPT@, true);
        lemma_settled_resolution(kind.args, kind.console, more, NAME_PROMPT@, true);
        if name.value is Some {
            lemma_settled_resolution(name.args, name.console, more, VERSION_PROMPT@, true);
            if version.value is Some {
                lemma_settled_resolution(
                    version.args,
                    version.console,
                    more,
                    GROUP_ID_PROMPT@,
                    true,
                );
                if group_id.value is Some {
                    lemma_settled_resolution(
                        group_id.args,
                        group_id.console,
                        more,
                        PATH_PROMPT@,
                        false,
                    );
                }
            }
        }
    }
}

/// Resolving a parameter without being starved goes the same way with more
/// input behind; and being starved is never undone.
proof fn lemma_settled_resolution(
    args: Seq<Seq<char>>,
    console: ConsoleView,
    more: Seq<char>,
    prompt: Seq<char>,
    mandatory: bool,
)
    requires
        ends_with_line(console.unread),
    ensures
        ({
            let before = resolution(args, console, prompt, mandatory);
            let after = resolution(args, with_more(console, more), prompt, mandatory);
            &&& console.starved ==> before.console.starved
            &&& !before.console.starved ==> {
                &&& after.value == before.value
                &&& after.args == before.args
                &&& after.console == with_more(before.console, more)
                &&& ends_with_line(before.console.unread)
                &&& (mandatory && args.len() == 0 ==> before.value is Some)
            }
        }),
{
    if args.len() == 0 && mandatory && console.unread.len() > 0 {
        lemma_first_line_of_more(console.unread, more);
        let before = resolution(args, console, prompt, mandatory);
        let after = resolution(args, with_more(console, more), prompt, mandatory);
        assert(after.console.unread =~= with_more(before.console, more).unread);
    }
}

} // verus!
