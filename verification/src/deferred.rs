use vstd::multiset::Multiset;
use vstd::prelude::*;
use vstd::seq_lib::group_to_multiset_ensures;

verus! {

/// A directory whose removal is postponed until the finalization pass,
/// because at scan time it still had subdirectories, or because it is the
/// deletion root.  `depth` counts path components below the deletion root;
/// the root itself has depth 0, so a directory always lies strictly deeper
/// than every ancestor it has inside the subtree.
#[derive(Clone, Debug)]
pub struct DeferredDir {
    pub path: String,
    pub depth: usize,
}

/// Deepest first: every later entry lies no deeper than any earlier one.
pub open spec fn sorted_by_depth_desc(s: Seq<DeferredDir>) -> bool {
    forall|i: int, j: int| 0 <= i < j < s.len() ==> s[i].depth >= s[j].depth
}

/// The entries at exactly one depth, in the order they stand in `s`.
pub open spec fn at_depth(s: Seq<DeferredDir>, d: int) -> Seq<DeferredDir>
    decreases s.len(),
{
    if s.len() == 0 {
        Seq::<DeferredDir>::empty()
    } else {
        let rest = at_depth(s.drop_last(), d);
        if s.last().depth == d {
            rest.push(s.last())
        } else {
            rest
        }
    }
}

proof fn lemma_at_depth_add(a: Seq<DeferredDir>, b: Seq<DeferredDir>, d: int)
    ensures
        at_depth(a + b, d) == at_depth(a, d) + at_depth(b, d),
    decreases b.len(),
{
    if b.len() == 0 {
        assert(a + b =~= a);
        assert(at_depth(a, d) + at_depth(b, d) =~= at_depth(a, d));
    } else {
        lemma_at_depth_add(a, b.drop_last(), d);
        assert((a + b).drop_last() =~= a + b.drop_last());
        assert((a + b).last() == b.last());
        if b.last().depth == d {
            assert(at_depth(a, d) + at_depth(b, d) =~= (at_depth(a, d) + at_depth(
                b.drop_last(),
                d,
            )).push(b.last()));
        }
    }
}

proof fn lemma_at_depth_absent(s: Seq<DeferredDir>, d: int)
    requires
        forall|i: int| 0 <= i < s.len() ==> s[i].depth != d,
    ensures
        at_depth(s, d) == Seq::<DeferredDir>::empty(),
    decreases s.len(),
{
    if s.len() > 0 {
        lemma_at_depth_absent(s.drop_last(), d);
    }
}

/// Order the merged deferred lists for the finalization pass: deepest
/// directory first.  The sort is stable — at every depth the entries keep
/// the order they were recorded in — and the result holds exactly the
/// given entries.
pub fn sort_deepest_first(list: Vec<DeferredDir>) -> (r: Vec<DeferredDir>)
    ensures
        sorted_by_depth_desc(r@),
        r@.to_multiset() == list@.to_multiset(),
        r@.len() == list@.len(),
        forall|d: int| #[trigger] at_depth(r@, d) == at_depth(list@, d),
{
    broadcast use group_to_multiset_ensures;
    broadcast use vstd::multiset::group_multiset_axioms;

    let ghost orig = list@;
    let mut rest = list;
    let mut out: Vec<DeferredDir> = Vec::new();
    proof {
        assert(out@.to_multiset().add(rest@.to_multiset()) =~= orig.to_multiset());
    }
    while rest.len() > 0
        invariant
            sorted_by_depth_desc(out@),
            out@.to_multiset().add(rest@.to_multiset()) == orig.to_multiset(),
            out@.len() + rest@.len() == orig.len(),
            forall|d: int| #[trigger] at_depth(orig, d) == at_depth(out@, d) + at_depth(
                rest@,
                d,
            ),
        decreases rest@.len(),
    {
        let ghost rest0 = rest@;
        let x = rest.remove(0);
        proof {
            assert(rest@ =~= rest0.remove(0));
        }
        let mut pos: usize = 0;
        while pos < out.len() && out[pos].depth >= x.depth
            invariant
                pos <= out@.len(),
                forall|k: int| 0 <= k < pos ==> out@[k].depth >= x.depth,
            decreases out@.len() - pos,
        {
            pos = pos + 1;
        }
        let ghost before = out@;
        out.insert(pos, x);
        proof {
            assert(out@ =~= before.insert(pos as int, x));
            assert forall|i: int, j: int| 0 <= i < j < out@.len() implies
                out@[i].depth >= out@[j].depth by {
                if i < pos && j == pos {
                } else if i == pos as int && j > pos {
                    assert(before[j - 1].depth < x.depth);
                }
            }
            vstd::seq_lib::to_multiset_insert::<DeferredDir>(before, pos as int, x);
            assert(out@.to_multiset() == before.to_multiset().insert(x));
            vstd::seq_lib::to_multiset_remove::<DeferredDir>(rest0, 0);
            assert(rest@.to_multiset() == rest0.to_multiset().remove(x));
            assert(rest0.contains(x)) by {
                assert(rest0[0] == x);
            }
            vstd::seq_lib::to_multiset_contains::<DeferredDir>(rest0, x);
            assert(rest0.to_multiset().count(x) > 0);
            assert(out@.to_multiset().add(rest@.to_multiset()) =~= orig.to_multiset());
            // Stability: at every depth the step keeps the recorded order.
            let prefix = before.subrange(0, pos as int);
            let suffix = before.subrange(pos as int, before.len() as int);
            assert(before =~= prefix + suffix);
            assert(out@ =~= prefix + (seq![x] + suffix));
            assert(rest0 =~= seq![x] + rest@);
            assert forall|i: int| 0 <= i < suffix.len() implies suffix[i].depth < x.depth by {
                assert(suffix[i] == before[pos + i]);
                assert(before[pos as int].depth < x.depth);
                if i > 0 {
                    assert(before[pos as int].depth >= before[pos + i].depth);
                }
            }
            assert forall|d: int| #[trigger] at_depth(orig, d) == at_depth(out@, d) + at_depth(
                rest@,
                d,
            ) by {
                assert(at_depth(orig, d) == at_depth(before, d) + at_depth(rest0, d));
                lemma_at_depth_add(prefix, suffix, d);
                lemma_at_depth_add(seq![x], suffix, d);
                lemma_at_depth_add(prefix, seq![x] + suffix, d);
                lemma_at_depth_add(seq![x], rest@, d);
                assert(seq![x].drop_last() =~= Seq::<DeferredDir>::empty());
                assert(at_depth(Seq::<DeferredDir>::empty(), d) =~= Seq::<DeferredDir>::empty());
                assert(seq![x].len() == 1);
                assert(seq![x].last() == x);
                if x.depth == d {
                    assert(at_depth(seq![x], d) =~= seq![x]);
                    lemma_at_depth_absent(suffix, d);
                    assert(at_depth(out@, d) =~= at_depth(before, d).push(x));
                    assert(at_depth(rest0, d) =~= seq![x] + at_depth(rest@, d));
                    assert(at_depth(out@, d) + at_depth(rest@, d) =~= at_depth(before, d)
                        + at_depth(rest0, d));
                } else {
                    assert(at_depth(seq![x], d) =~= Seq::<DeferredDir>::empty());
                    assert(at_depth(out@, d) =~= at_depth(before, d));
                    assert(at_depth(rest0, d) =~= at_depth(rest@, d));
                }
            }
        }
    }
    proof {
        assert(rest@.to_multiset() =~= Multiset::<DeferredDir>::empty());
        assert(out@.to_multiset() =~= orig.to_multiset());
        assert forall|d: int| #[trigger] at_depth(out@, d) == at_depth(orig, d) by {
            assert(at_depth(orig, d) == at_depth(out@, d) + at_depth(rest@, d));
            assert(at_depth(out@, d) + at_depth(rest@, d) =~= at_depth(out@, d));
        }
    }
    out
}

/// The depth invariant of the finalization order: in a deepest-first list,
/// an entry that lies strictly deeper than another stands strictly earlier.
/// In particular a deferred directory is removed before every ancestor of
/// its that was also deferred, since a descendant's depth always exceeds
/// its ancestor's.
pub proof fn lemma_deeper_comes_first(s: Seq<DeferredDir>, anc: int, desc: int)
    requires
        sorted_by_depth_desc(s),
        0 <= anc < s.len(),
        0 <= desc < s.len(),
        s[desc].depth > s[anc].depth,
    ensures
        desc < anc,
{
    if desc > anc {
        assert(s[anc].depth >= s[desc].depth);
    }
}

} // verus!
