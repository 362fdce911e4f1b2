//! The command line of one run: the positional parameters, the flags, and
//! the terminal behind them.

use crate::console::{Console, ConsoleView};
use crate::parameter_reader::{answer, answer_text, get_user_input, prompted, resolution};
use crate::text::{begins_with, optional_text, same_text, texts};
use std::collections::VecDeque;
use vstd::prelude::*;

verus! {

/// What is asked on the terminal when the flag for a server is not given.
pub const SERVER_QUESTION: &'static str = "Do you want to include a server? (yes/no)";

/// The flag that asks for a server.
pub const SERVER_FLAG: &'static str = "--with-server";

/// The arguments of a run, split into parameters and flags, and its terminal.
pub struct Cli {
    parameters: VecDeque<String>,
    flags: VecDeque<String>,
    input_buffer: Console,
}

/// What a `Cli` stands for.
pub struct CliView {
    /// The positional parameters that were not handed out yet, in order.
    pub parameters: Seq<Seq<char>>,
    /// The flags, in order.
    pub flags: Seq<Seq<char>>,
    /// The terminal.
    pub console: ConsoleView,
}

/// Whether an argument is a flag: it begins with two hyphens.
pub open spec fn is_flag(arg: Seq<char>) -> bool {
    "--"@.is_prefix_of(arg)
}

/// The flags among `args`, in order.
pub open spec fn flags_of(args: Seq<Seq<char>>) -> Seq<Seq<char>> {
    args.filter(|arg: Seq<char>| is_flag(arg))
}

/// The arguments that are no flags, in order.
pub open spec fn parameters_of(args: Seq<Seq<char>>) -> Seq<Seq<char>> {
    args.filter(|arg: Seq<char>| !is_flag(arg))
}

/// Whether an answer, if there is one, says yes.
pub open spec fn says_yes(answer: Option<Seq<char>>) -> bool {
    answer == Some("yes"@) || answer == Some("y"@)
}

impl View for Cli {
    type V = CliView;

    closed spec fn view(&self) -> CliView {
        CliView {
            parameters: texts(self.parameters@),
            flags: texts(self.flags@),
            console: self.input_buffer@,
        }
    }
}

proof fn lemma_split_step(args: Seq<String>, i: int)
    requires
        0 <= i < args.len(),
    ensures
        flags_of(texts(args.take(i + 1))) == if is_flag(args[i]@) {
            flags_of(texts(args.take(i))).push(args[i]@)
        } else {
            flags_of(texts(args.take(i)))
        },
        parameters_of(texts(args.take(i + 1))) == if is_flag(args[i]@) {
            parameters_of(texts(args.take(i)))
        } else {
            parameters_of(texts(args.take(i))).push(args[i]@)
        },
{
    reveal(Seq::filter);
    let longer = texts(args.take(i + 1));
    assert(longer.drop_last() =~= texts(args.take(i)));
    assert(longer.last() == args[i]@);
}

impl Cli {
    /// Splits `args` into flags, which begin with two hyphens, and
    /// parameters, which do not; each kind keeps its order.
    pub fn new(args: Vec<String>, input_buffer: Console) -> (cli: Self)
        ensures
            cli@.parameters == parameters_of(texts(args@)),
            cli@.flags == flags_of(texts(args@)),
            cli@.console == input_buffer@,
    {
        let mut parameters: VecDeque<String> = VecDeque::with_capacity(args.len());
        let mut flags: VecDeque<String> = VecDeque::with_capacity(args.len());
        let ghost all = args@;
        proof {
            reveal(Seq::filter);
            assert(texts(all.take(0)) =~= Seq::<Seq<char>>::empty());
        }
        for arg in it: args
            invariant
                it.seq() == all,
                texts(parameters@) == parameters_of(texts(all.take(it.index()))),
                texts(flags@) == flags_of(texts(all.take(it.index()))),
        {
            let ghost before_parameters = parameters@;
            let ghost before_flags = flags@;
            proof {
                lemma_split_step(all, it.index());
            }
            if begins_with(arg.as_str(), "--") {
                flags.push_back(arg);
                assert(texts(flags@) =~= texts(before_flags).push(arg@));
            } else {
                parameters.push_back(arg);
                assert(texts(parameters@) =~= texts(before_parameters).push(arg@));
            }
        }
        assert(all.take(all.len() as int) =~= all);
        Self { parameters, flags, input_buffer }
    }

    /// Resolves the next parameter: the first positional parameter that is
    /// left, or else, for a mandatory one, the answer to `input` on the
    /// terminal. An optional parameter is never asked for.
    pub fn get_next_parameter(&mut self, input: &str, mandatory: bool) -> (value: Option<String>)
        ensures
            optional_text(value) == resolution(
                old(self)@.parameters,
                old(self)@.console,
                input@,
                mandatory,
            ).value,
            final(self)@.parameters == resolution(
                old(self)@.parameters,
                old(self)@.console,
                input@,
                mandatory,
            ).args,
            final(self)@.console == resolution(
                old(self)@.parameters,
                old(self)@.console,
                input@,
                mandatory,
            ).console,
            final(self)@.flags == old(self)@.flags,
    {
        let parameter = self.parameters.pop_front();
        if let Some(param) = parameter {
            assert(texts(self.parameters@) =~= texts(old(self).parameters@).skip(1));
            Some(param)
        } else if mandatory {
            get_user_input(&mut self.input_buffer, input)
        } else {
            None
        }
    }

    /// Whether a server is wanted: the flag says so, or else the user is
    /// asked and answers `yes` or `y`. With the flag nothing is asked.
    pub fn with_server(&mut self) -> (wanted: bool)
        ensures
            old(self)@.flags.contains(SERVER_FLAG@) ==> wanted && final(self)@ == old(self)@,
            !old(self)@.flags.contains(SERVER_FLAG@) ==> {
                &&& wanted == says_yes(answer(old(self)@.console))
                &&& final(self)@.console == prompted(old(self)@.console, SERVER_QUESTION@)
                &&& final(self)@.parameters == old(self)@.parameters
                &&& final(self)@.flags == old(self)@.flags
            },
    {
        if self.has_flag(SERVER_FLAG) {
            true
        } else {
            let user_input = self.get_user_input(SERVER_QUESTION);
            let wanted = same_text(user_input.as_str(), "yes") || same_text(
                user_input.as_str(),
                "y",
            );
            proof {
                reveal_strlit("yes");
                reveal_strlit("y");
                assert("yes"@.len() == 3);
                assert("y"@.len() == 1);
            }
            wanted
        }
    }

    /// Whether `flag` is among the flags.
    pub fn has_flag(&self, flag: &str) -> (found: bool)
        ensures
            found == self@.flags.contains(flag@),
    {
        let mut i: usize = 0;
        while i < self.flags.len()
            invariant
                i <= self.flags@.len(),
                forall|j: int| 0 <= j < i ==> texts(self.flags@)[j] != flag@,
            decreases self.flags.len() - i,
        {
            if same_text(self.flags[i].as_str(), flag) {
                assert(texts(self.flags@)[i as int] == flag@);
                return true;
            }
            i += 1;
        }
        false
    }

    /// Displays `display_input` and reads the answer: the line without the
    /// white space around it, or nothing at all once the input is exhausted.
    pub fn get_user_input(&mut self, display_input: &str) -> (user_input: String)
        ensures
            user_input@ == answer_text(answer(old(self)@.console)),
            final(self)@.console == prompted(old(self)@.console, display_input@),
            final(self)@.parameters == old(self)@.parameters,
            final(self)@.flags == old(self)@.flags,
    {
        match get_user_input(&mut self.input_buffer, display_input) {
            Some(answer) => answer,
            None => String::new(),
        }
    }
}

} // verus!
