//! Splitting text into lines, as `str::lines` does.

use crate::name::strings_view;
use vstd::prelude::*;

verus! {

/// The index of the first line feed in `s` at or after `i`, or the length of `s` if none.
pub open spec fn line_end(s: Seq<char>, i: int) -> int
    decreases s.len() - i,
{
    if i < 0 || i >= s.len() {
        s.len() as int
    } else if s[i] == '\n' {
        i
    } else {
        line_end(s, i + 1)
    }
}

/// A line ends at a line feed, or at the end of the text.
pub proof fn lemma_line_end_bounds(s: Seq<char>, i: int)
    requires
        0 <= i,
    ensures
        i <= line_end(s, i) <= s.len() || (i > s.len() && line_end(s, i) == s.len()),
        line_end(s, i) < s.len() ==> s[line_end(s, i)] == '\n',
        forall|j: int| i <= j < line_end(s, i) ==> s[j] != '\n',
    decreases s.len() - i,
{
    if i < s.len() && s[i] != '\n' {
        lemma_line_end_bounds(s, i + 1);
    }
}

/// The line that starts at `i` and ends at `e`, without its line ending: the line feed, and
/// a carriage return just before it.
pub open spec fn line_at(s: Seq<char>, i: int, e: int) -> Seq<char> {
    if e < s.len() && e > i && s[e - 1] == '\r' {
        s.subrange(i, e - 1)
    } else {
        s.subrange(i, e)
    }
}

/// The lines of `s` from the index `i` on.
pub open spec fn lines_from(s: Seq<char>, i: int) -> Seq<Seq<char>>
    decreases s.len() + 1 - i,
{
    if i < 0 || i >= s.len() {
        Seq::empty()
    } else {
        let e = line_end(s, i);
        proof {
            lemma_line_end_bounds(s, i);
        }
        seq![line_at(s, i, e)] + lines_from(s, e + 1)
    }
}

/// The lines of `s`: split at each line feed, with a carriage return before it dropped, and
/// no empty line after a final line feed.
pub open spec fn lines_of(s: Seq<char>) -> Seq<Seq<char>> {
    lines_from(s, 0)
}

/// The lines of `s`, as `str::lines` gives them.
pub fn lines(s: &str) -> (r: Vec<String>)
    ensures
        strings_view(r@) == lines_of(s@),
{
    let len = s.unicode_len();
    let mut r: Vec<String> = Vec::new();
    let mut i: usize = 0;
    while i < len
        invariant
            i <= len,
            len == s@.len(),
            lines_of(s@) == strings_view(r@) + lines_from(s@, i as int),
        decreases len - i,
    {
        let mut e: usize = i;
        while e < len && s.get_char(e) != '\n'
            invariant
                i <= e <= len,
                len == s@.len(),
                line_end(s@, i as int) == line_end(s@, e as int),
            decreases len - e,
        {
            e = e + 1;
        }
        proof {
            lemma_line_end_bounds(s@, i as int);
        }
        assert(line_end(s@, i as int) == e);
        let stop: usize = if e < len && e > i && s.get_char(e - 1) == '\r' {
            e - 1
        } else {
            e
        };
        let line = String::from_str(s.substring_char(i, stop));
        assert(line@ == line_at(s@, i as int, e as int));
        let ghost before = strings_view(r@);
        r.push(line);
        assert(strings_view(r@) =~= before.push(line_at(s@, i as int, e as int)));
        assert(lines_from(s@, i as int) == seq![line_at(s@, i as int, e as int)] + lines_from(
            s@,
            e + 1,
        ));
        assert(lines_of(s@) =~= strings_view(r@) + lines_from(s@, e + 1));
        if e == len {
            assert(lines_from(s@, e + 1) =~= Seq::<Seq<char>>::empty());
            assert(lines_from(s@, len as int) =~= Seq::<Seq<char>>::empty());
            i = len;
        } else {
            i = e + 1;
        }
    }
    assert(lines_from(s@, i as int) =~= Seq::<Seq<char>>::empty());
    assert(lines_of(s@) =~= strings_view(r@));
    r
}

} // verus!
