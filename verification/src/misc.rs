//! Error messages that point into the source, and the names of temporary source files.

use crate::constants::INTERMEDIATE_PATH;
use crate::expr::{span_str, Span};
use crate::path::{path_join, path_join_of};
use vstd::prelude::*;

verus! {

/// What a source range adds to an error message: a line break and the range, or nothing.
pub open spec fn span_part(src: Option<Span>) -> Seq<char> {
    match src {
        None => Seq::empty(),
        Some(s) => seq!['\n'] + span_str(s),
    }
}

/// An error message: the message, a line break, then what each source range adds, in order.
pub open spec fn error_message(msg: Seq<char>, srcs: Seq<Option<Span>>) -> Seq<char>
    decreases srcs.len(),
{
    if srcs.len() == 0 {
        msg + seq!['\n']
    } else {
        error_message(msg, srcs.drop_last()) + span_part(srcs.last())
    }
}

fn append_span(r: &mut String, src: &Option<Span>)
    ensures
        final(r)@ == old(r)@ + span_part(*src),
{
    match src {
        None => {
            assert(old(r)@ + span_part(*src) =~= old(r)@);
        },
        Some(v) => {
            r.append("\n");
            r.append(v.to_string().as_str());
            proof {
                reveal_strlit("\n");
            }
        },
    }
}

/// The message with which the compiler stops at an error found at the source range `src`.
pub fn error_exit_with_src(msg: &str, src: &Option<Span>) -> (r: String)
    ensures
        r@ == error_message(msg@, seq![*src]),
{
    let mut r = String::from_str(msg);
    r.append("\n");
    proof {
        reveal_strlit("\n");
        assert(seq![*src].drop_last() =~= Seq::<Option<Span>>::empty());
    }
    append_span(&mut r, src);
    proof {
        let one = seq![*src];
        assert(one.last() == *src);
        assert(error_message(msg@, one.drop_last()) == msg@ + seq!['\n']);
    }
    r
}

/// The message with which the compiler stops at an error found at the source ranges `srcs`.
pub fn error_exit_with_srcs(msg: &str, srcs: &[&Option<Span>]) -> (r: String)
    ensures
        r@ == error_message(msg@, srcs@.map_values(|s: &Option<Span>| *s)),
{
    let ghost all = srcs@.map_values(|s: &Option<Span>| *s);
    let mut r = String::from_str(msg);
    r.append("\n");
    proof {
        reveal_strlit("\n");
    }
    let mut i: usize = 0;
    while i < srcs.len()
        invariant
            i <= srcs.len(),
            all == srcs@.map_values(|s: &Option<Span>| *s),
            r@ == error_message(msg@, all.subrange(0, i as int)),
        decreases srcs.len() - i,
    {
        append_span(&mut r, srcs[i]);
        assert(all.subrange(0, i + 1).drop_last() =~= all.subrange(0, i as int));
        i = i + 1;
    }
    assert(all.subrange(0, srcs.len() as int) =~= all);
    r
}

/// The name of the temporary copy of a source file: the file name, the hash, and `fix`,
/// joined by dots.
pub open spec fn temporary_source_name_of(file_name: Seq<char>, hash: Seq<char>) -> Seq<char> {
    file_name + seq!['.'] + hash + seq!['.', 'f', 'i', 'x']
}

pub fn temporary_source_name(file_name: &str, hash: &str) -> (r: String)
    ensures
        r@ == temporary_source_name_of(file_name@, hash@),
{
    let mut r = String::from_str(file_name);
    r.append(".");
    r.append(hash);
    r.append(".fix");
    proof {
        reveal_strlit(".");
        reveal_strlit(".fix");
    }
    r
}

/// Where the temporary copy of a source file is kept: in the intermediate directory.
pub fn temporary_source_path(file_name: &str, hash: &str) -> (r: String)
    ensures
        r@ == path_join_of(INTERMEDIATE_PATH@, temporary_source_name_of(file_name@, hash@)),
{
    let name = temporary_source_name(file_name, hash);
    path_join(INTERMEDIATE_PATH, name.as_str())
}

} // verus!
