//! The interactive terminal as plain data: the text that is still to be read
//! from it, and the prompts that were displayed on it.

use crate::text::{optional_text, text_between, texts, to_chars};
use vstd::prelude::*;

verus! {

/// A terminal session. Reading takes lines off the front of the unread input;
/// displaying appends to the list of prompts. Nothing is ever taken back.
pub struct Console {
    unread: Vec<char>,
    displayed: Vec<String>,
    starved: bool,
}

/// What a `Console` stands for.
pub struct ConsoleView {
    /// The input that has not been read yet.
    pub unread: Seq<char>,
    /// The prompts displayed so far, oldest first.
    pub displayed: Seq<Seq<char>>,
    /// Whether a line was asked for when none was left to read.
    pub starved: bool,
}

/// The first line of `s`: everything up to and including the first line
/// feed, or all of `s` where it holds none.
pub open spec fn first_line(s: Seq<char>) -> Seq<char>
    decreases s.len(),
{
    if s.len() == 0 {
        s
    } else if s[0] == '\n' {
        seq!['\n']
    } else {
        seq![s[0]] + first_line(s.skip(1))
    }
}

/// A line is never longer than the text it is taken from, and never empty
/// where that text is not.
pub proof fn lemma_first_line_length(s: Seq<char>)
    ensures
        first_line(s).len() <= s.len(),
        s.len() > 0 ==> first_line(s).len() >= 1,
    decreases s.len(),
{
    if s.len() > 0 && s[0] != '\n' {
        lemma_first_line_length(s.skip(1));
    }
}

impl ConsoleView {
    /// The line that the next read returns: none once the input is
    /// exhausted.
    pub open spec fn next_line(self) -> Option<Seq<char>> {
        if self.unread.len() == 0 {
            None
        } else {
            Some(first_line(self.unread))
        }
    }

    /// The session after one read: the first line has left the input, or,
    /// where there was none, the session is known to be starved.
    pub open spec fn after_read(self) -> ConsoleView {
        ConsoleView {
            unread: self.unread.skip(first_line(self.unread).len() as int),
            displayed: self.displayed,
            starved: self.starved || self.unread.len() == 0,
        }
    }

    /// The session after `prompt` was displayed.
    pub open spec fn after_display(self, prompt: Seq<char>) -> ConsoleView {
        ConsoleView {
            unread: self.unread,
            displayed: self.displayed.push(prompt),
            starved: self.starved,
        }
    }
}

impl View for Console {
    type V = ConsoleView;

    closed spec fn view(&self) -> ConsoleView {
        ConsoleView {
            unread: self.unread@,
            displayed: texts(self.displayed@),
            starved: self.starved,
        }
    }
}

impl Console {
    /// A session on which `input` waits to be read and nothing was displayed.
    pub fn new(input: &str) -> (console: Console)
        ensures
            console@.unread == input@,
            console@.displayed == Seq::<Seq<char>>::empty(),
            !console@.starved,
    {
        let console = Console { unread: to_chars(input), displayed: Vec::new(), starved: false };
        assert(texts(console.displayed@) =~= Seq::<Seq<char>>::empty());
        console
    }

    /// Whether all of the input has been read.
    pub fn is_exhausted(&self) -> (exhausted: bool)
        ensures
            exhausted == (self@.unread.len() == 0),
    {
        self.unread.len() == 0
    }

    /// Whether a line was asked for when none was left to read.
    pub fn is_starved(&self) -> (starved: bool)
        ensures
            starved == self@.starved,
    {
        self.starved
    }

    /// Displays `prompt`.
    pub fn display(&mut self, prompt: &str)
        ensures
            final(self)@ == old(self)@.after_display(prompt@),
    {
        let ghost before = self.displayed@;
        let line = prompt.to_owned();
        self.displayed.push(line);
        assert(texts(self.displayed@) =~= texts(before).push(prompt@));
    }

    /// Reads one line, its line feed included. Once the input is exhausted
    /// there is no line, and the session is starved from then on.
    pub fn read_line(&mut self) -> (line: Option<String>)
        ensures
            optional_text(line) == old(self)@.next_line(),
            final(self)@ == old(self)@.after_read(),
    {
        if self.unread.len() == 0 {
            self.starved = true;
            assert(self.unread@.skip(0) =~= self.unread@);
            return None;
        }
        let mut end: usize = 0;
        let mut found = false;
        assert(self.unread@.subrange(0, 0) =~= Seq::<char>::empty());
        assert(self.unread@.skip(0) =~= self.unread@);
        assert(Seq::<char>::empty() + first_line(self.unread@) =~= first_line(self.unread@));
        while !found && end < self.unread.len()
            invariant
                end <= self.unread.len(),
                *self == *old(self),
                !found ==> self.unread@.subrange(0, end as int) + first_line(
                    self.unread@.skip(end as int),
                ) == first_line(self.unread@),
                found ==> self.unread@.subrange(0, end as int) == first_line(self.unread@),
            decreases self.unread.len() - end + if found { 0int } else { 1int },
        {
            let ghost rest = self.unread@.skip(end as int);
            let ghost head = self.unread@.subrange(0, end as int);
            assert(rest.skip(1) =~= self.unread@.skip(end + 1));
            assert(self.unread@.subrange(0, end + 1) =~= head + seq![rest[0]]);
            if self.unread[end] == '\n' {
                found = true;
            } else {
                assert(head + (seq![rest[0]] + first_line(rest.skip(1))) =~= (head + seq![rest[0]])
                    + first_line(rest.skip(1)));
            }
            end += 1;
        }
        proof {
            if !found {
                assert(self.unread@.subrange(0, end as int) + Seq::<char>::empty()
                    =~= self.unread@.subrange(0, end as int));
            }
        }
        let line = text_between(&self.unread, 0, end);
        let rest = self.unread.split_off(end);
        self.unread = rest;
        assert(self.unread@ =~= old(self).unread@.skip(end as int));
        Some(line)
    }

    /// The prompts displayed so far, oldest first.
    pub fn prompts(&self) -> (prompts: &Vec<String>)
        ensures
            texts(prompts@) == self@.displayed,
    {
        &self.displayed
    }
}

} // verus!
