//! Character-level text utilities.
//!
//! The linter splices replacement text by character index, so all internal
//! processing works on vectors of `char`; these helpers move between that
//! representation and `String` / `&str` at the crate boundary.

use vstd::prelude::*;
use vstd::string::*;
use vstd::assert_by_contradiction;

verus! {

/// Collects the characters of a string slice into a vector.
pub fn chars_of(s: &str) -> (r: Vec<char>)
    ensures
        r@ == s@,
{
    let n = s.unicode_len();
    let mut r: Vec<char> = Vec::new();
    let mut i: usize = 0;
    while i < n
        invariant
            n == s@.len(),
            i <= n,
            r@ == s@.subrange(0, i as int),
        decreases n - i,
    {
        r.push(s.get_char(i));
        proof {
            assert(s@.subrange(0, i + 1 as int) =~= s@.subrange(0, i as int).push(s@[i as int]));
        }
        i += 1;
    }
    proof {
        assert(r@ =~= s@);
    }
    r
}

/// Relies on `String: FromIterator<char>` from the standard library: the
/// collected string holds exactly the characters of the iterator, in order.
#[verifier::external_body]
pub fn string_of(v: &Vec<char>) -> (r: String)
    ensures
        r@ == v@,
{
    v.iter().collect()
}

/// Compares two character vectors for equality.
pub fn chars_eq(a: &Vec<char>, b: &Vec<char>) -> (r: bool)
    ensures
        r == (a@ == b@),
{
    if a.len() != b.len() {
        return false;
    }
    let mut i: usize = 0;
    while i < a.len()
        invariant
            a@.len() == b@.len(),
            i <= a@.len(),
            forall|j: int| 0 <= j < i ==> a@[j] == b@[j],
        decreases a@.len() - i,
    {
        if a[i] != b[i] {
            return false;
        }
        i += 1;
    }
    proof {
        assert(a@ =~= b@);
    }
    true
}

/// Compares a character vector with a string slice.
pub fn chars_match_str(v: &Vec<char>, s: &str) -> (r: bool)
    ensures
        r == (v@ == s@),
{
    let n = s.unicode_len();
    if v.len() != n {
        return false;
    }
    let mut i: usize = 0;
    while i < n
        invariant
            n == s@.len(),
            v@.len() == n,
            i <= n,
            forall|j: int| 0 <= j < i ==> v@[j] == s@[j],
        decreases n - i,
    {
        if v[i] != s.get_char(i) {
            return false;
        }
        i += 1;
    }
    proof {
        assert(v@ =~= s@);
    }
    true
}

/// Appends the characters of a string slice to a character vector.
pub fn push_str_chars(v: &mut Vec<char>, s: &str)
    ensures
        final(v)@ == old(v)@ + s@,
{
    let n = s.unicode_len();
    let mut i: usize = 0;
    while i < n
        invariant
            n == s@.len(),
            i <= n,
            v@ == old(v)@ + s@.subrange(0, i as int),
        decreases n - i,
    {
        v.push(s.get_char(i));
        proof {
            assert(old(v)@ + s@.subrange(0, i + 1 as int) =~= (old(v)@ + s@.subrange(
                0,
                i as int,
            )).push(s@[i as int]));
        }
        i += 1;
    }
    proof {
        assert(v@ =~= old(v)@ + s@);
    }
}

/// Appends a range of one character vector to another.
pub fn push_range(v: &mut Vec<char>, src: &Vec<char>, from: usize, to: usize)
    requires
        from <= to <= src@.len(),
    ensures
        final(v)@ == old(v)@ + src@.subrange(from as int, to as int),
{
    let mut i: usize = from;
    while i < to
        invariant
            from <= i <= to <= src@.len(),
            v@ == old(v)@ + src@.subrange(from as int, i as int),
        decreases to - i,
    {
        v.push(src[i]);
        proof {
            assert(old(v)@ + src@.subrange(from as int, i + 1 as int) =~= (old(v)@
                + src@.subrange(from as int, i as int)).push(src@[i as int]));
        }
        i += 1;
    }
}


/// Splitting a character sequence on a separator: `split_acc` walks the
/// remaining input, extending the current piece or starting a new one at
/// each separator.
pub open spec fn split_acc(s: Seq<char>, sep: char, cur: Seq<char>, acc: Seq<Seq<char>>) -> Seq<
    Seq<char>,
>
    decreases s.len(),
{
    if s.len() == 0 {
        acc.push(cur)
    } else if s[0] == sep {
        split_acc(s.skip(1), sep, Seq::empty(), acc.push(cur))
    } else {
        split_acc(s.skip(1), sep, cur.push(s[0]), acc)
    }
}

/// The pieces of `s` between occurrences of `sep`; the empty input yields
/// one empty piece, like `str::split`.
pub open spec fn split_chars(s: Seq<char>, sep: char) -> Seq<Seq<char>> {
    split_acc(s, sep, Seq::empty(), Seq::empty())
}

/// Splits the characters of a string slice on a separator character.
pub fn split_str(s: &str, sep: char) -> (r: Vec<Vec<char>>)
    ensures
        r@.map_values(|p: Vec<char>| p@) == split_chars(s@, sep),
{
    let n = s.unicode_len();
    let mut acc: Vec<Vec<char>> = Vec::new();
    let mut cur: Vec<char> = Vec::new();
    let mut i: usize = 0;
    proof {
        assert(s@.skip(0) =~= s@);
        assert(acc@.map_values(|p: Vec<char>| p@) =~= Seq::<Seq<char>>::empty());
    }
    while i < n
        invariant
            n == s@.len(),
            i <= n,
            split_acc(s@.skip(i as int), sep, cur@, acc@.map_values(|p: Vec<char>| p@))
                == split_chars(s@, sep),
        decreases n - i,
    {
        let ghost pre_rest = s@.skip(i as int);
        let c = s.get_char(i);
        proof {
            assert(pre_rest[0] == s@[i as int]);
            assert(pre_rest.skip(1) =~= s@.skip(i + 1 as int));
        }
        if c == sep {
            let ghost old_acc = acc@.map_values(|p: Vec<char>| p@);
            acc.push(cur);
            proof {
                assert(acc@.map_values(|p: Vec<char>| p@) =~= old_acc.push(cur@));
            }
            cur = Vec::new();
        } else {
            cur.push(c);
        }
        i += 1;
    }
    proof {
        assert(s@.skip(n as int) =~= Seq::<char>::empty());
    }
    let ghost old_acc = acc@.map_values(|p: Vec<char>| p@);
    acc.push(cur);
    proof {
        assert(acc@.map_values(|p: Vec<char>| p@) =~= old_acc.push(cur@));
    }
    acc
}

/// Does `h` contain `n` as a contiguous subsequence?
pub open spec fn spec_contains(h: Seq<char>, n: Seq<char>) -> bool {
    exists|k: int| 0 <= k && k + n.len() <= h.len() && #[trigger] h.subrange(k, k + n.len()) == n
}

/// Does `s` occur in `h` at position `k`?
fn match_at(h: &Vec<char>, s: &str, k: usize) -> (r: bool)
    requires
        k + s@.len() <= h@.len(),
    ensures
        r == (h@.subrange(k as int, k + s@.len()) == s@),
{
    let n = s.unicode_len();
    let hl = h.len();
    let mut m: usize = 0;
    while m < n
        invariant
            n == s@.len(),
            hl == h@.len(),
            k + n <= hl,
            m <= n,
            h@.subrange(k as int, k + m) == s@.subrange(0, m as int),
        decreases n - m,
    {
        let ghost pm = m as int;
        if h[k + m] != s.get_char(m) {
            proof {
                assert(h@.subrange(k as int, k + s@.len())[pm] == h@[k + pm]);
            }
            return false;
        }
        proof {
            assert(h@.subrange(k as int, k + m + 1) =~= h@.subrange(k as int, k + pm).push(
                h@[k + pm],
            ));
            assert(s@.subrange(0, pm + 1) =~= s@.subrange(0, pm).push(s@[pm]));
        }
        m += 1;
    }
    proof {
        assert(s@.subrange(0, s@.len() as int) =~= s@);
    }
    true
}

/// Substring search: does the character vector contain the string?
pub fn contains_str(h: &Vec<char>, s: &str) -> (r: bool)
    ensures
        r == spec_contains(h@, s@),
{
    let n = s.unicode_len();
    let hl = h.len();
    if n > hl {
        return false;
    }
    let mut k: usize = 0;
    while k <= hl - n
        invariant
            n == s@.len(),
            hl == h@.len(),
            n <= hl,
            k <= hl - n + 1,
            forall|j: int| 0 <= j < k ==> #[trigger] h@.subrange(j, j + s@.len()) != s@,
        decreases hl + 1 - k,
    {
        if match_at(h, s, k) {
            proof {
                let ki = k as int;
                assert(h@.subrange(ki, ki + s@.len()) == s@);
            }
            return true;
        }
        proof {
            assert(h@.subrange(k as int, k + s@.len()) != s@);
        }
        if k == hl - n {
            proof {
                assert_by_contradiction!(!spec_contains(h@, s@), {
                    let w = choose|w: int|
                        0 <= w && w + s@.len() <= h@.len() && #[trigger] h@.subrange(
                            w,
                            w + s@.len(),
                        ) == s@;
                    assert(h@.subrange(w, w + s@.len()) != s@);
                });
            }
            return false;
        }
        k += 1;
    }
    proof {
        assert_by_contradiction!(!spec_contains(h@, s@), {
            let w = choose|w: int|
                0 <= w && w + s@.len() <= h@.len() && #[trigger] h@.subrange(w, w + s@.len())
                    == s@;
            assert(h@.subrange(w, w + s@.len()) != s@);
        });
    }
    false
}

/// The decimal digit character for a value in 0..10.
pub open spec fn digit_char(d: int) -> char {
    if d == 0 {
        '0'
    } else if d == 1 {
        '1'
    } else if d == 2 {
        '2'
    } else if d == 3 {
        '3'
    } else if d == 4 {
        '4'
    } else if d == 5 {
        '5'
    } else if d == 6 {
        '6'
    } else if d == 7 {
        '7'
    } else if d == 8 {
        '8'
    } else {
        '9'
    }
}

/// The decimal representation of a non-negative number.
pub open spec fn dec_str(n: int) -> Seq<char>
    decreases n,
{
    if n < 10 {
        seq![digit_char(n)]
    } else {
        dec_str(n / 10).push(digit_char(n % 10))
    }
}

/// Appends the decimal representation of `n`.
pub fn push_decimal(buf: &mut Vec<char>, n: usize)
    ensures
        final(buf)@ == old(buf)@ + dec_str(n as int),
    decreases n,
{
    if n < 10 {
        buf.push(digit_of(n));
        proof {
            assert(buf@ =~= old(buf)@ + dec_str(n as int));
        }
    } else {
        proof {
            assert(n / 10 < n) by (nonlinear_arith)
                requires
                    n >= 10,
            ;
        }
        push_decimal(buf, n / 10);
        buf.push(digit_of(n % 10));
        proof {
            assert(buf@ =~= old(buf)@ + dec_str(n as int));
        }
    }
}

/// The digit character of `n % 10`-style values below 10.
fn digit_of(d: usize) -> (r: char)
    requires
        d < 10,
    ensures
        r == digit_char(d as int),
{
    if d == 0 {
        '0'
    } else if d == 1 {
        '1'
    } else if d == 2 {
        '2'
    } else if d == 3 {
        '3'
    } else if d == 4 {
        '4'
    } else if d == 5 {
        '5'
    } else if d == 6 {
        '6'
    } else if d == 7 {
        '7'
    } else if d == 8 {
        '8'
    } else {
        '9'
    }
}

} // verus!
