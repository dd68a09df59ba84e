//! Row/column positions and the newline index used to compute them.

use vstd::prelude::*;

verus! {

/// A 1-based row and column in a source file.
#[derive(Clone, Copy, PartialEq, Eq, Structural, Debug)]
pub struct Location {
    pub row: usize,
    pub column: usize,
}

/// The offsets of the newline characters of `text`, in order.
pub open spec fn newline_index(text: Seq<char>) -> Seq<usize>
    decreases text.len(),
{
    if text.len() == 0 {
        Seq::empty()
    } else if text.last() == '\n' {
        newline_index(text.drop_last()).push((text.len() - 1) as usize)
    } else {
        newline_index(text.drop_last())
    }
}

/// Collects the offsets of all newline characters of the text.
pub fn find_new_lines(text: &Vec<char>) -> (r: Vec<usize>)
    ensures
        r@ == newline_index(text@),
{
    let mut r: Vec<usize> = Vec::new();
    proof {
        assert(text@.subrange(0, 0) =~= Seq::<char>::empty());
    }
    let mut i: usize = 0;
    while i < text.len()
        invariant
            i <= text@.len(),
            r@ == newline_index(text@.subrange(0, i as int)),
        decreases text@.len() - i,
    {
        let ghost pre = text@.subrange(0, i as int);
        proof {
            let post = text@.subrange(0, i + 1 as int);
            assert(post.drop_last() =~= pre);
            assert(post.last() == text@[i as int]);
        }
        if text[i] == '\n' {
            r.push(i);
        }
        i += 1;
    }
    proof {
        assert(text@.subrange(0, text@.len() as int) =~= text@);
    }
    r
}

/// How many entries of `r` are at most `p`.
pub open spec fn count_le(r: Seq<usize>, p: usize) -> int
    decreases r.len(),
{
    if r.len() == 0 {
        0
    } else {
        count_le(r.drop_last(), p) + if r.last() <= p {
            1int
        } else {
            0int
        }
    }
}

/// The largest entry of `r` that is at most `p`, or 0 when there is none.
pub open spec fn last_le(r: Seq<usize>, p: usize) -> usize
    decreases r.len(),
{
    if r.len() == 0 {
        0usize
    } else if r.last() <= p {
        r.last()
    } else {
        last_le(r.drop_last(), p)
    }
}

/// Converts a character offset to a 1-based row and column, given the
/// newline offsets of the text: the row is one more than the number of
/// newlines at or before the offset, and the column counts from the last
/// such newline.
pub fn find_row_col(start: usize, new_lines: &Vec<usize>) -> (r: (usize, usize))
    requires
        start < usize::MAX,
        new_lines@.len() < usize::MAX,
    ensures
        r.0 as int == count_le(new_lines@, start) + 1,
        r.1 as int == start - last_le(new_lines@, start) + 1,
{
    let mut n: usize = 0;
    let mut last: usize = 0;
    let mut i: usize = 0;
    while i < new_lines.len()
        invariant
            i <= new_lines@.len(),
            new_lines@.len() < usize::MAX,
            start < usize::MAX,
            n <= i,
            n as int == count_le(new_lines@.subrange(0, i as int), start),
            last == last_le(new_lines@.subrange(0, i as int), start),
            last <= start,
        decreases new_lines@.len() - i,
    {
        let ghost pre = new_lines@.subrange(0, i as int);
        let v = new_lines[i];
        if v <= start {
            n = n + 1;
            last = v;
        }
        proof {
            let post = new_lines@.subrange(0, i + 1 as int);
            assert(post.drop_last() =~= pre);
            assert(post.last() == new_lines@[i as int]);
        }
        i += 1;
    }
    proof {
        assert(new_lines@.subrange(0, new_lines@.len() as int) =~= new_lines@);
    }
    (n + 1, start - last + 1)
}

} // verus!
