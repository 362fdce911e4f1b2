//! Text as sequences of characters.
//!
//! The Unicode tables stay with the standard library: whether a character is
//! alphanumeric or white space, and the case mappings, are asked of `std` and
//! appear in contracts under a name. Everything built on them (comparison,
//! substitution, trimming, capitalising words) is verified here against
//! specifications over `Seq<char>`.

use vstd::prelude::*;

verus! {

/// What `char::is_alphanumeric` answers for `c`.
pub uninterp spec fn char_is_alphanumeric(c: char) -> bool;

/// What `char::is_whitespace` answers for `c`.
pub uninterp spec fn char_is_whitespace(c: char) -> bool;

/// The characters that `char::to_uppercase` yields for `c`, in order.
pub uninterp spec fn char_uppercase(c: char) -> Seq<char>;

/// The characters of the string that `str::to_lowercase` returns for `s`.
pub uninterp spec fn str_lowercase(s: Seq<char>) -> Seq<char>;

/// `char::is_alphanumeric`: the answer depends on the character alone.
pub assume_specification[ char::is_alphanumeric ](c: char) -> (b: bool)
    ensures
        b == char_is_alphanumeric(c),
;

/// `char::is_whitespace`: the answer depends on the character alone.
pub assume_specification[ char::is_whitespace ](c: char) -> (b: bool)
    ensures
        b == char_is_whitespace(c),
;

/// `str::to_lowercase`: the result depends on the characters of `s` alone.
pub assume_specification[ str::to_lowercase ](s: &str) -> (lower: String)
    ensures
        lower@ == str_lowercase(s@),
;

/// `String::push`: appends `ch` and changes nothing else.
pub assume_specification[ String::push ](s: &mut String, ch: char)
    ensures
        final(s)@ == old(s)@.push(ch),
;

/// `char::to_uppercase`, collected: the characters of the upper-case mapping
/// of `c`, which depend on the character alone.
#[verifier::external_body]
pub(crate) fn uppercase_of(c: char) -> (upper: Vec<char>)
    ensures
        upper@ == char_uppercase(c),
{
    c.to_uppercase().collect()
}

/// The characters of each string of a list.
pub open spec fn texts(strings: Seq<String>) -> Seq<Seq<char>> {
    strings.map_values(|s: String| s@)
}

/// The characters of an optional string.
pub open spec fn optional_text(text: Option<String>) -> Option<Seq<char>> {
    match text {
        Some(text) => Some(text@),
        None => None,
    }
}

/// `s` with every occurrence of `from` replaced by `to`, scanning from the
/// left and never looking again at what was already replaced. An empty `from`
/// occurs nowhere.
pub open spec fn replaced(s: Seq<char>, from: Seq<char>, to: Seq<char>) -> Seq<char>
    decreases s.len(),
{
    if s.len() == 0 {
        s
    } else if from.len() > 0 && from.is_prefix_of(s) {
        to + replaced(s.skip(from.len() as int), from, to)
    } else {
        seq![s[0]] + replaced(s.skip(1), from, to)
    }
}

/// Whether `pattern` stands somewhere in `s`.
pub open spec fn occurs_in(pattern: Seq<char>, s: Seq<char>) -> bool {
    exists|i: int| 0 <= i <= s.len() && pattern.is_prefix_of(#[trigger] s.skip(i))
}

/// Replacing what does not occur changes nothing: a text in which `from`
/// stands nowhere, or any text where `from` is empty, is kept as it is.
pub proof fn lemma_replaced_without_occurrence(s: Seq<char>, from: Seq<char>, to: Seq<char>)
    requires
        from.len() > 0 ==> !occurs_in(from, s),
    ensures
        replaced(s, from, to) == s,
    decreases s.len(),
{
    if s.len() > 0 {
        assert(s.skip(0) =~= s);
        assert forall|i: int| 0 <= i <= s.skip(1).len() implies !(from.len() > 0
            && from.is_prefix_of(#[trigger] s.skip(1).skip(i))) by {
            assert(s.skip(1).skip(i) =~= s.skip(i + 1));
        }
        lemma_replaced_without_occurrence(s.skip(1), from, to);
        assert(seq![s[0]] + s.skip(1) =~= s);
    }
}

/// `s` without its leading white space.
pub open spec fn trimmed_start(s: Seq<char>) -> Seq<char>
    decreases s.len(),
{
    if s.len() > 0 && char_is_whitespace(s[0]) {
        trimmed_start(s.skip(1))
    } else {
        s
    }
}

/// `s` without its trailing white space.
pub open spec fn trimmed_end(s: Seq<char>) -> Seq<char>
    decreases s.len(),
{
    if s.len() > 0 && char_is_whitespace(s.last()) {
        trimmed_end(s.drop_last())
    } else {
        s
    }
}

/// `s` without the white space at either end.
pub open spec fn trimmed(s: Seq<char>) -> Seq<char> {
    trimmed_end(trimmed_start(s))
}

/// What separates the words of a text.
#[derive(Clone, Copy, Debug, PartialEq, Eq)]
pub enum Separators {
    /// Every character that is not alphanumeric.
    NonAlphanumeric,
    /// White space.
    WhiteSpace,
}

impl Separators {
    /// Whether `c` separates words.
    pub open spec fn separates(self, c: char) -> bool {
        match self {
            Separators::NonAlphanumeric => !char_is_alphanumeric(c),
            Separators::WhiteSpace => char_is_whitespace(c),
        }
    }

    /// Whether `c` separates words.
    pub fn is_separator(&self, c: char) -> (separator: bool)
        ensures
            separator == self.separates(c),
    {
        match self {
            Separators::NonAlphanumeric => !c.is_alphanumeric(),
            Separators::WhiteSpace => c.is_whitespace(),
        }
    }
}

/// Whether a word begins at index `i` of `s`.
pub open spec fn begins_word(s: Seq<char>, i: int, separators: Separators) -> bool {
    !separators.separates(s[i]) && (i == 0 || separators.separates(s[i - 1]))
}

/// What the character at index `i` of `s` leaves in the capitalised text:
/// nothing for a separator, its upper-case mapping where it begins a word,
/// itself anywhere else.
pub open spec fn capitalized_at(s: Seq<char>, i: int, separators: Separators) -> Seq<char> {
    if separators.separates(s[i]) {
        Seq::empty()
    } else if begins_word(s, i, separators) {
        char_uppercase(s[i])
    } else {
        seq![s[i]]
    }
}

/// What the first `n` characters of `s` leave in the capitalised text.
pub open spec fn capitalized_prefix(s: Seq<char>, n: int, separators: Separators) -> Seq<char>
    decreases n,
{
    if n <= 0 {
        Seq::empty()
    } else {
        capitalized_prefix(s, n - 1, separators) + capitalized_at(s, n - 1, separators)
    }
}

/// The words of `s` joined without anything between them, the first
/// character of each word replaced by its upper-case mapping and the rest of
/// the word as it was.
pub open spec fn capitalized_words(s: Seq<char>, separators: Separators) -> Seq<char> {
    capitalized_prefix(s, s.len() as int, separators)
}

/// Whether `s` is one word of alphanumeric characters whose first character
/// is its own upper-case mapping.
pub open spec fn is_capitalized_word(s: Seq<char>) -> bool {
    &&& forall|i: int| 0 <= i < s.len() ==> char_is_alphanumeric(#[trigger] s[i])
    &&& s.len() > 0 ==> char_uppercase(s[0]) == seq![s[0]]
}

/// Whether the upper-case mapping of `c` is plain: at least one character,
/// all of them alphanumeric, and the first its own upper-case mapping.
pub open spec fn has_plain_capital(c: char) -> bool {
    &&& char_uppercase(c).len() >= 1
    &&& forall|k: int|
        0 <= k < char_uppercase(c).len() ==> char_is_alphanumeric(#[trigger] char_uppercase(c)[k])
    &&& char_uppercase(char_uppercase(c)[0]) == seq![char_uppercase(c)[0]]
}

/// Whether every character that begins an alphanumeric word of `s` has a
/// plain upper-case mapping.
pub open spec fn has_plain_capitals(s: Seq<char>) -> bool {
    forall|i: int|
        0 <= i < s.len() && begins_word(s, i, Separators::NonAlphanumeric) ==> has_plain_capital(
            #[trigger] s[i],
        )
}

/// Capitalising the words of one capitalised word changes nothing.
pub proof fn lemma_capitalized_word_is_fixed(s: Seq<char>)
    requires
        is_capitalized_word(s),
    ensures
        capitalized_words(s, Separators::NonAlphanumeric) == s,
{
    lemma_capitalized_word_prefix(s, s.len() as int);
    assert(s.take(s.len() as int) =~= s);
}

proof fn lemma_capitalized_word_prefix(s: Seq<char>, n: int)
    requires
        is_capitalized_word(s),
        0 <= n <= s.len(),
    ensures
        capitalized_prefix(s, n, Separators::NonAlphanumeric) == s.take(n),
    decreases n,
{
    if n > 0 {
        lemma_capitalized_word_prefix(s, n - 1);
        assert(s.take(n) =~= s.take(n - 1) + seq![s[n - 1]]);
    } else {
        assert(s.take(0) =~= Seq::<char>::empty());
    }
}

/// Where the words of `s` begin with characters of plain upper-case
/// mappings, the alphanumeric words of `s`, capitalised and joined, are one
/// capitalised word.
pub proof fn lemma_capitalized_words_are_one_word(s: Seq<char>)
    requires
        has_plain_capitals(s),
    ensures
        is_capitalized_word(capitalized_words(s, Separators::NonAlphanumeric)),
{
    lemma_capitalized_prefix_is_word(s, s.len() as int);
}

proof fn lemma_capitalized_prefix_is_word(s: Seq<char>, n: int)
    requires
        has_plain_capitals(s),
        0 <= n <= s.len(),
    ensures
        is_capitalized_word(capitalized_prefix(s, n, Separators::NonAlphanumeric)),
        n > 0 && char_is_alphanumeric(s[n - 1]) ==> capitalized_prefix(
            s,
            n,
            Separators::NonAlphanumeric,
        ).len() > 0,
    decreases n,
{
    if n > 0 {
        lemma_capitalized_prefix_is_word(s, n - 1);
        let before = capitalized_prefix(s, n - 1, Separators::NonAlphanumeric);
        let piece = capitalized_at(s, n - 1, Separators::NonAlphanumeric);
        let after = capitalized_prefix(s, n, Separators::NonAlphanumeric);
        assert(after == before + piece);
        if !char_is_alphanumeric(s[n - 1]) {
            assert(after =~= before);
        } else if begins_word(s, n - 1, Separators::NonAlphanumeric) {
            assert(has_plain_capital(s[n - 1]));
            assert forall|i: int| 0 <= i < after.len() implies char_is_alphanumeric(
                #[trigger] after[i],
            ) by {
                if i >= before.len() {
                    assert(after[i] == piece[i - before.len()]);
                }
            }
        } else {
            assert(before.len() > 0);
            assert forall|i: int| 0 <= i < after.len() implies char_is_alphanumeric(
                #[trigger] after[i],
            ) by {
                if i >= before.len() {
                    assert(after[i] == s[n - 1]);
                }
            }
        }
    }
}

/// The characters of `s`, one by one.
pub fn to_chars(s: &str) -> (chars: Vec<char>)
    ensures
        chars@ == s@,
{
    let mut chars: Vec<char> = Vec::new();
    for c in it: s.chars()
        invariant
            it.seq() == s@,
            chars@ == s@.take(it.index()),
    {
        chars.push(c);
        assert(s@.take(it.index() + 1) =~= s@.take(it.index()).push(c));
    }
    assert(s@.take(s@.len() as int) =~= s@);
    chars
}

/// The string made of `chars[from..to]`.
pub(crate) fn text_between(chars: &Vec<char>, from: usize, to: usize) -> (text: String)
    requires
        from <= to <= chars.len(),
    ensures
        text@ == chars@.subrange(from as int, to as int),
{
    let mut text = String::new();
    let mut i: usize = from;
    while i < to
        invariant
            from <= i <= to <= chars.len(),
            text@ == chars@.subrange(from as int, i as int),
        decreases to - i,
    {
        text.push(chars[i]);
        assert(chars@.subrange(from as int, i + 1) =~= chars@.subrange(from as int, i as int).push(
            chars@[i as int],
        ));
        i += 1;
    }
    text
}

/// The string made of all of `chars`.
pub fn text_of(chars: &Vec<char>) -> (text: String)
    ensures
        text@ == chars@,
{
    let text = text_between(chars, 0, chars.len());
    assert(chars@.subrange(0, chars@.len() as int) =~= chars@);
    text
}

/// Whether `pattern` stands in `chars` at index `at`.
pub(crate) fn occurs_at(chars: &Vec<char>, at: usize, pattern: &Vec<char>) -> (found: bool)
    requires
        at <= chars.len(),
    ensures
        found == pattern@.is_prefix_of(chars@.skip(at as int)),
{
    if pattern.len() > chars.len() - at {
        return false;
    }
    let mut k: usize = 0;
    while k < pattern.len()
        invariant
            at <= chars.len(),
            pattern.len() <= chars.len() - at,
            k <= pattern.len(),
            forall|j: int| 0 <= j < k ==> pattern@[j] == chars@[at + j],
        decreases pattern.len() - k,
    {
        if pattern[k] != chars[at + k] {
            assert(chars@.skip(at as int).subrange(0, pattern@.len() as int)[k as int]
                == chars@[at + k]);
            return false;
        }
        k += 1;
    }
    assert(pattern@ =~= chars@.skip(at as int).subrange(0, pattern@.len() as int));
    true
}

/// Whether two strings hold the same characters.
pub fn same_text(a: &str, b: &str) -> (same: bool)
    ensures
        same == (a@ == b@),
{
    let left = to_chars(a);
    let right = to_chars(b);
    if left.len() != right.len() {
        return false;
    }
    let found = occurs_at(&left, 0, &right);
    proof {
        assert(left@.skip(0) =~= left@);
        if found {
            assert(right@ =~= left@.subrange(0, right@.len() as int));
            assert(left@.subrange(0, left@.len() as int) =~= left@);
        }
    }
    found
}

/// Whether `s` begins with `prefix`.
pub fn begins_with(s: &str, prefix: &str) -> (found: bool)
    ensures
        found == prefix@.is_prefix_of(s@),
{
    let chars = to_chars(s);
    let pattern = to_chars(prefix);
    assert(chars@.skip(0) =~= chars@);
    occurs_at(&chars, 0, &pattern)
}

/// Replaces every occurrence of `from` in `s` by `to`.
pub fn replace_all(s: &str, from: &str, to: &str) -> (out: String)
    ensures
        out@ == replaced(s@, from@, to@),
{
    let chars = to_chars(s);
    let pattern = to_chars(from);
    let mut out = String::new();
    let mut i: usize = 0;
    assert(chars@.skip(0) =~= chars@);
    while i < chars.len()
        invariant
            i <= chars.len(),
            chars@ == s@,
            pattern@ == from@,
            out@ + replaced(chars@.skip(i as int), from@, to@) == replaced(s@, from@, to@),
        decreases chars.len() - i,
    {
        let ghost rest = chars@.skip(i as int);
        let ghost before = out@;
        if pattern.len() > 0 && occurs_at(&chars, i, &pattern) {
            out.append(to);
            i += pattern.len();
            assert(rest.skip(from@.len() as int) =~= chars@.skip(i as int));
            assert(before + (to@ + replaced(chars@.skip(i as int), from@, to@)) =~= out@
                + replaced(chars@.skip(i as int), from@, to@));
        } else {
            out.push(chars[i]);
            i += 1;
            assert(rest.skip(1) =~= chars@.skip(i as int));
            assert(before + (seq![rest[0]] + replaced(chars@.skip(i as int), from@, to@))
                =~= out@ + replaced(chars@.skip(i as int), from@, to@));
        }
    }
    assert(out@ + Seq::<char>::empty() =~= out@);
    out
}

/// Removes the white space at both ends of `s`.
pub fn trim(s: &str) -> (out: String)
    ensures
        out@ == trimmed(s@),
{
    let chars = to_chars(s);
    let mut start: usize = 0;
    assert(chars@.skip(0) =~= chars@);
    while start < chars.len() && chars[start].is_whitespace()
        invariant
            start <= chars.len(),
            trimmed_start(chars@.skip(start as int)) == trimmed_start(chars@),
        decreases chars.len() - start,
    {
        assert(chars@.skip(start as int).skip(1) =~= chars@.skip(start + 1));
        start += 1;
    }
    assert(trimmed_start(chars@) == chars@.skip(start as int));
    let mut end: usize = chars.len();
    assert(chars@.subrange(start as int, end as int) =~= chars@.skip(start as int));
    while end > start && chars[end - 1].is_whitespace()
        invariant
            start <= end <= chars.len(),
            trimmed_end(chars@.subrange(start as int, end as int)) == trimmed(chars@),
        decreases end - start,
    {
        assert(chars@.subrange(start as int, end as int).drop_last() =~= chars@.subrange(
            start as int,
            end - 1,
        ));
        end -= 1;
    }
    text_between(&chars, start, end)
}

/// Joins the words of `s`, each with its first character in upper case.
pub fn capitalize_words(s: &str, separators: Separators) -> (out: String)
    ensures
        out@ == capitalized_words(s@, separators),
{
    let chars = to_chars(s);
    let mut out = String::new();
    let mut word_begins = true;
    let mut i: usize = 0;
    while i < chars.len()
        invariant
            i <= chars.len(),
            chars@ == s@,
            out@ == capitalized_prefix(s@, i as int, separators),
            word_begins == (i == 0 || separators.separates(chars@[i - 1])),
        decreases chars.len() - i,
    {
        let c = chars[i];
        let ghost before = out@;
        if separators.is_separator(c) {
            word_begins = true;
            assert(before + Seq::<char>::empty() =~= before);
        } else if word_begins {
            let upper = uppercase_of(c);
            out.append(text_of(&upper).as_str());
            word_begins = false;
        } else {
            out.push(c);
            word_begins = false;
            assert(before.push(c) =~= before + seq![c]);
        }
        i += 1;
    }
    out
}

/// Whether `s` is one word of alphanumeric characters whose first character
/// is its own upper-case mapping: a text that capitalising leaves as it is.
pub fn is_capitalized(s: &str) -> (capitalized: bool)
    ensures
        capitalized == is_capitalized_word(s@),
        capitalized ==> capitalized_words(s@, Separators::NonAlphanumeric) == s@,
{
    let chars = to_chars(s);
    let mut i: usize = 0;
    while i < chars.len()
        invariant
            i <= chars.len(),
            chars@ == s@,
            forall|j: int| 0 <= j < i ==> char_is_alphanumeric(#[trigger] chars@[j]),
        decreases chars.len() - i,
    {
        if !chars[i].is_alphanumeric() {
            assert(!char_is_alphanumeric(s@[i as int]));
            return false;
        }
        i += 1;
    }
    if chars.len() > 0 {
        let upper = uppercase_of(chars[0]);
        if upper.len() != 1 || upper[0] != chars[0] {
            assert(upper@ != seq![chars@[0]]) by {
                if upper@.len() == 1 {
                    assert(seq![chars@[0]][0] == chars@[0]);
                }
            }
            return false;
        }
        assert(upper@ =~= seq![chars@[0]]);
    }
    proof {
        lemma_capitalized_word_is_fixed(s@);
    }
    true
}

} // verus!
