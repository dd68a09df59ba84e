//! Applying a batch of fixes to source text in one pass.
//!
//! Fixes arrive ordered by source position, with ranges recorded against the
//! original text.  Earlier replacements shift later ranges, so each range is
//! adjusted by the cumulative length delta; a fix whose adjusted start falls
//! before the end of the previous replacement overlaps it and is skipped,
//! and the caller re-runs detection to pick it up in a later pass.
//!
//! The whole pass is modelled by the spec function `apply_all`, a fold of
//! `apply_one` over the fix list, and `apply_fix_list` is proved to compute
//! exactly that model.  The lemmas at the end state the safety properties of
//! a pass: applied fixes never overlap in the original text, and the length
//! of the output is the input length plus the sum of the length changes of
//! exactly the applied fixes.

use vstd::prelude::*;
use crate::message::{Fix, FixV, Message};
use crate::text::{push_range, push_str_chars};

verus! {

/// The state of an apply pass: the text so far, the cumulative length
/// delta, the end (in current-text coordinates) of the last replacement,
/// which fixes were applied, and whether any fix was skipped.
pub struct ApplyState {
    pub text: Seq<char>,
    pub delta: int,
    pub last_end: int,
    pub applied: Seq<bool>,
    pub skipped: bool,
}

/// The initial state of a pass over `text`.
pub open spec fn apply_init(text: Seq<char>) -> ApplyState {
    ApplyState { text, delta: 0, last_end: 0, applied: Seq::empty(), skipped: false }
}

/// A fix list is well-formed for a text length when every range is ordered
/// and within the text.
pub open spec fn fixes_wf(fs: Seq<FixV>, len: int) -> bool {
    forall|i: int| 0 <= i < fs.len() ==> 0 <= (#[trigger] fs[i]).start <= fs[i].end <= len
}

/// One step of the pass.  A fix marked `to_skip` is ignored entirely; a fix
/// whose adjusted start lies before the end of the previous replacement is
/// skipped; otherwise the replacement is spliced in.
pub open spec fn apply_one(s: ApplyState, f: FixV) -> ApplyState {
    if f.to_skip {
        ApplyState { applied: s.applied.push(false), ..s }
    } else if f.start + s.delta < s.last_end {
        ApplyState { applied: s.applied.push(false), skipped: true, ..s }
    } else {
        let a = f.start + s.delta;
        let b = f.end + s.delta;
        ApplyState {
            text: s.text.subrange(0, a) + f.content + s.text.subrange(b, s.text.len() as int),
            delta: s.delta + f.content.len() - (f.end - f.start),
            last_end: a + f.content.len(),
            applied: s.applied.push(true),
            skipped: s.skipped,
        }
    }
}

/// The whole pass: folds `apply_one` over the fixes.
pub open spec fn apply_all(fs: Seq<FixV>, init: ApplyState) -> ApplyState
    decreases fs.len(),
{
    if fs.len() == 0 {
        init
    } else {
        apply_one(apply_all(fs.drop_last(), init), fs.last())
    }
}

/// The views of the fixes carried by a list of messages; a message without
/// a fix contributes one that is never applied.
pub open spec fn message_fixes(ms: Seq<Message>) -> Seq<FixV> {
    ms.map_values(|m: Message| m.spec_fix_for_apply())
}

/// Basic facts preserved by a pass, proved by induction: the delta tracks
/// the text length, the cursor stays inside the text, one `applied` entry is
/// recorded per fix, and prefixes of the text before the cursor are final.
pub proof fn lemma_apply_wf(fs: Seq<FixV>, text: Seq<char>)
    requires
        fixes_wf(fs, text.len() as int),
    ensures
        ({
            let s = apply_all(fs, apply_init(text));
            &&& s.delta == s.text.len() - text.len()
            &&& 0 <= s.last_end <= s.text.len()
            &&& s.applied.len() == fs.len()
        }),
    decreases fs.len(),
{
    if fs.len() > 0 {
        assert(fixes_wf(fs.drop_last(), text.len() as int));
        lemma_apply_wf(fs.drop_last(), text);
    }
}

/// Applies the fixes of `fixes` (in order) to `text`, returning whether any
/// fix was skipped and the rewritten text; computes exactly `apply_all`.
pub fn apply_fix_list(fixes: &Vec<Fix>, text: &Vec<char>) -> (r: (bool, Vec<char>))
    requires
        fixes_wf(fixes@.map_values(|f: Fix| f@), text@.len() as int),
    ensures
        ({
            let s = apply_all(fixes@.map_values(|f: Fix| f@), apply_init(text@));
            r.0 == s.skipped && r.1@ == s.text
        }),
{
    let ghost fvs = fixes@.map_values(|f: Fix| f@);
    let old_len = text.len();
    let mut cur: Vec<char> = Vec::new();
    push_range(&mut cur, text, 0, old_len);
    proof {
        assert(cur@ =~= text@);
    }
    let mut last_end: usize = 0;
    let mut skipped = false;
    let mut i: usize = 0;
    while i < fixes.len()
        invariant
            fixes_wf(fvs, text@.len() as int),
            fvs == fixes@.map_values(|f: Fix| f@),
            i <= fixes@.len(),
            old_len == text@.len(),
            ({
                let s = apply_all(fvs.subrange(0, i as int), apply_init(text@));
                &&& cur@ == s.text
                &&& last_end as int == s.last_end
                &&& skipped == s.skipped
                &&& s.delta == cur@.len() - old_len
                &&& last_end <= cur@.len()
            }),
        decreases fixes@.len() - i,
    {
        let ghost pre = fvs.subrange(0, i as int);
        let ghost s = apply_all(pre, apply_init(text@));
        proof {
            let post = fvs.subrange(0, i + 1 as int);
            assert(post.drop_last() =~= pre);
            assert(post.last() == fvs[i as int]);
            lemma_apply_wf(pre, text@);
        }
        let f = &fixes[i];
        let cur_len = cur.len();
        if f.to_skip {
            // never auto-applied
        } else if (f.start as u128) + (cur_len as u128) < (old_len as u128) + (last_end as u128) {
            // overlaps an already-applied fix in this pass
            skipped = true;
        } else {
            // adjusted range [a, b) in current-text coordinates
            let a = if cur_len >= old_len {
                f.start + (cur_len - old_len)
            } else {
                f.start - (old_len - cur_len)
            };
            let b = if cur_len >= old_len {
                f.end + (cur_len - old_len)
            } else {
                f.end - (old_len - cur_len)
            };
            let mut next: Vec<char> = Vec::new();
            push_range(&mut next, &cur, 0, a);
            push_str_chars(&mut next, f.content.as_str());
            push_range(&mut next, &cur, b, cur_len);
            let content_len = next.len() - (cur_len - b) - a;
            last_end = a + content_len;
            cur = next;
        }
        i += 1;
    }
    proof {
        assert(fvs.subrange(0, fixes@.len() as int) =~= fvs);
    }
    (skipped, cur)
}

/// How much the applied fixes change the text length: the sum over exactly
/// the fixes marked applied of `len(replacement) - (end - start)`.
pub open spec fn applied_delta(fs: Seq<FixV>, mask: Seq<bool>) -> int
    decreases fs.len(),
{
    if fs.len() == 0 || mask.len() != fs.len() {
        0
    } else {
        applied_delta(fs.drop_last(), mask.drop_last()) + if mask.last() {
            fs.last().content.len() - (fs.last().end - fs.last().start)
        } else {
            0int
        }
    }
}

/// Length invariant of a pass: the output length is the input length plus
/// the sum of the length changes of exactly the fixes that were applied.
pub proof fn lemma_length_invariant(fs: Seq<FixV>, text: Seq<char>)
    requires
        fixes_wf(fs, text.len() as int),
    ensures
        ({
            let s = apply_all(fs, apply_init(text));
            s.text.len() == text.len() + applied_delta(fs, s.applied)
        }),
    decreases fs.len(),
{
    if fs.len() > 0 {
        assert(fixes_wf(fs.drop_last(), text.len() as int));
        lemma_apply_wf(fs.drop_last(), text);
        lemma_length_invariant(fs.drop_last(), text);
        let s0 = apply_all(fs.drop_last(), apply_init(text));
        let s = apply_one(s0, fs.last());
        assert(s.applied.drop_last() =~= s0.applied);
    }
}

/// In original-text coordinates, the pass cursor `last_end - delta` only
/// moves right, every applied fix lies at or after the cursor position that
/// preceded it, and the cursor ends at or after the end of every applied
/// fix.
proof fn lemma_apply_cursor(fs: Seq<FixV>, text: Seq<char>)
    requires
        fixes_wf(fs, text.len() as int),
    ensures
        ({
            let s = apply_all(fs, apply_init(text));
            &&& s.applied.len() == fs.len()
            &&& s.last_end - s.delta >= 0
            &&& forall|i: int|
                0 <= i < fs.len() && s.applied[i] ==> (#[trigger] fs[i]).end <= s.last_end - s.delta
        }),
    decreases fs.len(),
{
    if fs.len() > 0 {
        assert(fixes_wf(fs.drop_last(), text.len() as int));
        lemma_apply_cursor(fs.drop_last(), text);
        let s0 = apply_all(fs.drop_last(), apply_init(text));
        let s = apply_one(s0, fs.last());
        let f = fs.last();
        let n = fs.len() - 1;
        assert(forall|i: int| 0 <= i < n ==> fs[i] == fs.drop_last()[i]);
        assert(forall|i: int| 0 <= i < n ==> s.applied[i] == s0.applied[i]);
        if !f.to_skip && f.start + s0.delta >= s0.last_end {
            assert(s.last_end - s.delta == f.end);
            assert(f.start >= s0.last_end - s0.delta);
        }
    }
}

/// Non-overlap safety: within one pass, any two applied fixes span disjoint,
/// non-crossing ranges of the original text — the earlier one ends at or
/// before the later one starts.
pub proof fn lemma_non_overlap(fs: Seq<FixV>, text: Seq<char>)
    requires
        fixes_wf(fs, text.len() as int),
    ensures
        ({
            let s = apply_all(fs, apply_init(text));
            forall|i: int, j: int|
                0 <= i < j < fs.len() && s.applied[i] && s.applied[j] ==> (#[trigger] fs[i]).end
                    <= (#[trigger] fs[j]).start
        }),
    decreases fs.len(),
{
    if fs.len() > 0 {
        assert(fixes_wf(fs.drop_last(), text.len() as int));
        lemma_non_overlap(fs.drop_last(), text);
        lemma_apply_cursor(fs.drop_last(), text);
        let s0 = apply_all(fs.drop_last(), apply_init(text));
        let s = apply_one(s0, fs.last());
        let f = fs.last();
        let n = fs.len() - 1;
        assert(forall|i: int| 0 <= i < n ==> fs[i] == fs.drop_last()[i]);
        assert(forall|i: int| 0 <= i < n ==> s.applied[i] == s0.applied[i]);
        assert(forall|i: int, j: int|
            0 <= i < j < n && s.applied[i] && s.applied[j] ==> (#[trigger] fs[i]).end
                <= (#[trigger] fs[j]).start);
        if !f.to_skip && f.start + s0.delta >= s0.last_end {
            assert(forall|i: int|
                0 <= i < n && s.applied[i] ==> (#[trigger] fs[i]).end <= s0.last_end - s0.delta);
            assert(forall|i: int|
                0 <= i < n && s.applied[i] ==> (#[trigger] fs[i]).end <= f.start);
        }
    }
}

/// A pass reports a skip exactly when some fix that was eligible for
/// automatic application (not marked `to_skip`) was not applied.
pub proof fn lemma_skip_flag(fs: Seq<FixV>, text: Seq<char>)
    requires
        fixes_wf(fs, text.len() as int),
    ensures
        ({
            let s = apply_all(fs, apply_init(text));
            s.skipped <==> exists|i: int|
                0 <= i < fs.len() && !(#[trigger] fs[i]).to_skip && !s.applied[i]
        }),
    decreases fs.len(),
{
    if fs.len() > 0 {
        assert(fixes_wf(fs.drop_last(), text.len() as int));
        lemma_skip_flag(fs.drop_last(), text);
        lemma_apply_cursor(fs.drop_last(), text);
        let s0 = apply_all(fs.drop_last(), apply_init(text));
        let s = apply_one(s0, fs.last());
        let f = fs.last();
        let n = fs.len() - 1;
        assert(forall|i: int| 0 <= i < n ==> fs[i] == fs.drop_last()[i]);
        assert(forall|i: int| 0 <= i < n ==> s.applied[i] == s0.applied[i]);
        if s.skipped {
            if s0.skipped {
                let w = choose|i: int|
                    0 <= i < n && !(#[trigger] fs.drop_last()[i]).to_skip && !s0.applied[i];
                assert(0 <= w < fs.len() && !fs[w].to_skip && !s.applied[w]);
            } else {
                assert(!f.to_skip && !s.applied[n]);
            }
        }
        if exists|i: int| 0 <= i < fs.len() && !(#[trigger] fs[i]).to_skip && !s.applied[i] {
            let w = choose|i: int|
                0 <= i < fs.len() && !(#[trigger] fs[i]).to_skip && !s.applied[i];
            if w < n {
                assert(!fs.drop_last()[w].to_skip && !s0.applied[w]);
                assert(s0.skipped);
            } else {
                assert(s.skipped);
            }
        }
    }
}

/// The two-fix instance of overlap handling: of two eligible fixes whose
/// ranges overlap, the first is applied, the second is skipped without
/// moving the cursor, and the pass reports the skip.  (With three or more
/// fixes, two overlapping fixes can instead both be skipped when each
/// overlaps an earlier applied one; `lemma_non_overlap` gives the general
/// at-most-one guarantee.)
pub proof fn lemma_overlapping_pair(f0: FixV, f1: FixV, text: Seq<char>)
    requires
        fixes_wf(seq![f0, f1], text.len() as int),
        !f0.to_skip,
        !f1.to_skip,
        f0.start <= f1.start,
        f1.start < f0.end,
    ensures
        ({
            let s = apply_all(seq![f0, f1], apply_init(text));
            &&& s.applied == seq![true, false]
            &&& s.skipped
            &&& s.last_end == apply_one(apply_init(text), f0).last_end
        }),
{
    let fs = seq![f0, f1];
    assert(fs[0] == f0);
    assert(fs[1] == f1);
    assert(fs.drop_last() =~= seq![f0]);
    assert(fs.last() == f1);
    assert(seq![f0].drop_last() =~= Seq::<FixV>::empty());
    assert(seq![f0].last() == f0);
    assert(apply_all(Seq::<FixV>::empty(), apply_init(text)) == apply_init(text));
    let s0 = apply_all(seq![f0], apply_init(text));
    assert(s0 == apply_one(apply_init(text), f0));
    assert(0 <= f0.start <= f0.end <= text.len());
    assert(s0.applied =~= Seq::<bool>::empty().push(true));
    assert(s0.applied =~= seq![true]);
    let s = apply_one(s0, f1);
    assert(apply_all(fs, apply_init(text)) == s);
    assert(s0.delta == f0.content.len() - (f0.end - f0.start));
    assert(s0.last_end == f0.start + 0 + f0.content.len());
    assert(f1.start + s0.delta < s0.last_end);
    assert(s.applied =~= seq![true, false]);
}

} // verus!
