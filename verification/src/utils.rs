use vstd::prelude::*;
use vstd::string::StrSliceExecFns;
use crate::message::OFFSET;

verus! {

/// Number of newline characters in the text.
pub open spec fn newline_count(s: Seq<char>) -> nat
    decreases s.len(),
{
    if s.len() == 0 {
        0
    } else {
        newline_count(s.drop_last()) + if s.last() == '\n' { 1nat } else { 0nat }
    }
}

/// Number of lines the text renders as: one more than its newline count.
pub open spec fn line_count(s: Seq<char>) -> nat {
    newline_count(s) + 1
}

/// Height of a message showing this text: line count plus the fixed border
/// padding, at least 3, clamped to the widest value a row counter holds.
pub open spec fn spec_height(s: Seq<char>) -> int {
    let padded = line_count(s) + OFFSET;
    let floored = if padded < 3 { 3int } else { padded as int };
    if floored > u16::MAX { u16::MAX as int } else { floored }
}

/// Length of the line still open at the end of the text: the characters
/// after the last newline.
pub open spec fn last_line_len(s: Seq<char>) -> nat
    decreases s.len(),
{
    if s.len() == 0 {
        0
    } else if s.last() == '\n' {
        0
    } else {
        last_line_len(s.drop_last()) + 1
    }
}

/// Length of the longest line of the text, splitting at newlines.
pub open spec fn longest_line_len(s: Seq<char>) -> nat
    decreases s.len(),
{
    if s.len() == 0 {
        0
    } else if s.last() == '\n' {
        longest_line_len(s.drop_last())
    } else {
        let rest = longest_line_len(s.drop_last());
        let cur = last_line_len(s);
        if cur > rest { cur } else { rest }
    }
}

fn count_newlines(s: &str) -> (n: usize)
    ensures
        n == newline_count(s@),
{
    broadcast use vstd::string::group_string_axioms;

    let len = s.unicode_len();
    let mut n: usize = 0;
    for c in it: s.chars()
        invariant
            it.seq() == s@,
            len == s@.len(),
            n <= it.index(),
            it.index() <= len,
            n == newline_count(s@.take(it.index() as int)),
    {
        if c == '\n' {
            n = n + 1;
        }
        proof {
            assert(s@.take(it.index() + 1).drop_last() =~= s@.take(it.index() as int));
            assert(s@.take(it.index() + 1).last() == s@[it.index() as int]);
        }
    }
    proof {
        assert(s@.take(s@.len() as int) =~= s@);
    }
    n
}

/// Height in rows of a message showing this text: its line count plus a
/// fixed padding of `OFFSET` rows, never below 3.
pub fn get_height(text: &String) -> (h: u16)
    ensures
        h == spec_height(text@),
{
    let n = count_newlines(text.as_str());
    if n >= (u16::MAX as usize) - OFFSET {
        u16::MAX
    } else {
        let h = (n + 1 + OFFSET) as u16;
        if h < 3 {
            3
        } else {
            h
        }
    }
}

/// Length in characters of the longest line of the text.
pub fn get_longest_string(text: &String) -> (longest: usize)
    ensures
        longest == longest_line_len(text@),
{
    broadcast use vstd::string::group_string_axioms;

    let s = text.as_str();
    let len = s.unicode_len();
    let mut cur: usize = 0;
    let mut longest: usize = 0;
    for c in it: s.chars()
        invariant
            it.seq() == s@,
            len == s@.len(),
            cur <= it.index(),
            longest <= it.index(),
            it.index() <= len,
            cur == last_line_len(s@.take(it.index() as int)),
            longest == longest_line_len(s@.take(it.index() as int)),
    {
        if c == '\n' {
            cur = 0;
        } else {
            cur = cur + 1;
            if cur > longest {
                longest = cur;
            }
        }
        proof {
            assert(s@.take(it.index() + 1).drop_last() =~= s@.take(it.index() as int));
            assert(s@.take(it.index() + 1).last() == s@[it.index() as int]);
        }
    }
    proof {
        assert(s@.take(s@.len() as int) =~= s@);
    }
    longest
}

/// Appending text never loses lines: the line count is non-decreasing under
/// concatenation.
pub proof fn lemma_line_count_monotone(s: Seq<char>, d: Seq<char>)
    ensures
        line_count(s) <= line_count(s + d),
    decreases d.len(),
{
    if d.len() == 0 {
        assert(s + d =~= s);
    } else {
        lemma_line_count_monotone(s, d.drop_last());
        assert((s + d).drop_last() =~= s + d.drop_last());
    }
}

/// A message's height is a monotone function of its line count: more lines
/// never means a smaller height.
pub proof fn lemma_height_monotone(s1: Seq<char>, s2: Seq<char>)
    requires
        line_count(s1) <= line_count(s2),
    ensures
        spec_height(s1) <= spec_height(s2),
{
}

} // verus!
