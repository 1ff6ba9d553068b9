//! The list reconciler: applies a computed edit script to the document's
//! ordered child sequence, back to front, so that earlier indices stay valid
//! while later spans shift.  Spans the script marks equal are never touched,
//! which is what preserves concurrent remote edits anchored to them; the
//! script's cost is contractually minimal on lists up to the size threshold
//! stated at [`reconcile_script`].

use vstd::prelude::*;

use crate::model::{
    EditKind, EditOp, Item, Val, children_val, edit_script_for, script_cost, script_covers,
};
use crate::ybridge::{
    arr_binding, arr_insert_range, arr_items, arr_live, arr_remove_range, diff_slices, doc_graph,
    graph_with_field, lemma_field_overwrite, lemma_field_same, txn_key,
};

verus! {

/// The sequence a string vector stands for.
pub open spec fn views_of(v: Seq<String>) -> Seq<Seq<char>> {
    v.map_values(|s: String| s@)
}

/// The stored items a sequence of strings writes.
pub open spec fn items_for(v: Seq<Seq<char>>) -> Seq<Item> {
    v.map_values(|s: Seq<char>| Item::IStr(s))
}

/// Computes the edit script from `old` to `new`.  The script tiles both
/// sequences in ascending order; spans marked equal carry equal content, so a
/// caller that skips them touches nothing both sides agree on.  When either
/// list has at most 96 elements the script's cost (elements deleted plus
/// elements inserted) is minimal among all valid scripts, so elements of a
/// longest common subsequence are never removed and reinserted; on larger
/// inputs the underlying search may take a documented shortcut and the
/// script is near-minimal but not contractually so.
pub fn reconcile_script(old: &Vec<String>, new: &Vec<String>) -> (r: Vec<EditOp>)
    ensures
        edit_script_for(r@, views_of(old@), views_of(new@)),
        (old@.len() <= 96 || new@.len() <= 96) ==> forall|other: Seq<EditOp>|
            edit_script_for(other, views_of(old@), views_of(new@)) ==> script_cost(r@)
                <= #[trigger] script_cost(other),
{
    diff_slices(old, new)
}

/// Copies `v[a..b]` into a fresh vector.
fn vec_range(v: &Vec<String>, a: usize, b: usize) -> (r: Vec<String>)
    requires
        a <= b <= v@.len(),
    ensures
        views_of(r@) == views_of(v@).subrange(a as int, b as int),
{
    let mut r: Vec<String> = Vec::new();
    let mut i: usize = a;
    while i < b
        invariant
            a <= i <= b <= v@.len(),
            r@.len() == i - a,
            forall|j: int| 0 <= j < r@.len() ==> #[trigger] r@[j]@ == v@[a + j]@,
        decreases b - i,
    {
        r.push(v[i].clone());
        i = i + 1;
    }
    proof {
        assert(views_of(r@) =~= views_of(v@).subrange(a as int, b as int));
    }
    r
}

/// Whether two string vectors hold the same strings in the same order.
pub fn vec_str_eq(a: &Vec<String>, b: &Vec<String>) -> (r: bool)
    ensures
        r <==> views_of(a@) == views_of(b@),
{
    if a.len() != b.len() {
        assert(views_of(a@).len() != views_of(b@).len());
        return false;
    }
    let mut i: usize = 0;
    while i < a.len()
        invariant
            0 <= i <= a@.len(),
            a@.len() == b@.len(),
            forall|j: int| 0 <= j < i ==> #[trigger] a@[j]@ == b@[j]@,
        decreases a@.len() - i,
    {
        if !(a[i] == b[i]) {
            assert(views_of(a@)[i as int] != views_of(b@)[i as int]);
            return false;
        }
        i = i + 1;
    }
    proof {
        assert(views_of(a@) =~= views_of(b@));
    }
    true
}

/// Applies an edit script from `old_items` to `new_items` against the stored
/// sequence, highest span first, leaving the sequence equal to `new_items`.
pub(crate) fn apply_edits(
    a: &yrs::ArrayRef,
    t: &mut yrs::TransactionMut,
    ops: &Vec<EditOp>,
    old_items: &Vec<String>,
    new_items: &Vec<String>,
)
    requires
        arr_live(*a, *old(t)),
        arr_items(*a, *old(t)) == items_for(views_of(old_items@)),
        edit_script_for(ops@, views_of(old_items@), views_of(new_items@)),
        old_items@.len() + new_items@.len() <= u32::MAX,
    ensures
        txn_key(*final(t)) == txn_key(*old(t)),
        doc_graph(*final(t)) == graph_with_field(
            doc_graph(*old(t)),
            arr_binding(*a).id,
            arr_binding(*a).field,
            children_val(views_of(new_items@)),
        ),
{
    let ghost oldv = views_of(old_items@);
    let ghost newv = views_of(new_items@);
    let ghost g0 = doc_graph(*old(t));
    let ghost gid = arr_binding(*a).id;
    let ghost gf = arr_binding(*a).field;
    let mut k: usize = ops.len();
    let ghost mut oe: int = oldv.len() as int;
    let ghost mut ne: int = newv.len() as int;
    proof {
        assert(ops@.take(k as int) =~= ops@);
        assert(arr_items(*a, *t) =~= items_for(oldv).subrange(0, oe) + items_for(newv).subrange(
            ne,
            newv.len() as int,
        ));
        lemma_field_same(g0, gid, gf, Val::VList(arr_items(*a, *t)));
    }
    while k > 0
        invariant
            k <= ops@.len(),
            0 <= oe <= oldv.len(),
            0 <= ne <= newv.len(),
            oldv == views_of(old_items@),
            newv == views_of(new_items@),
            oldv.len() + newv.len() <= u32::MAX,
            script_covers(ops@.take(k as int), oe, ne, oldv, newv),
            txn_key(*t) == txn_key(*old(t)),
            gid == arr_binding(*a).id && gf == arr_binding(*a).field,
            arr_live(*a, *t),
            arr_items(*a, *t) == items_for(oldv).subrange(0, oe) + items_for(newv).subrange(
                ne,
                newv.len() as int,
            ),
            doc_graph(*t) == graph_with_field(g0, gid, gf, Val::VList(arr_items(*a, *t))),
            g0 == doc_graph(*old(t)),
        decreases k,
    {
        let op = ops[k - 1];
        proof {
            assert(ops@.take(k as int).last() == op);
            assert(ops@.take(k as int).drop_last() =~= ops@.take(k - 1));
            assert(script_covers(ops@.take(k as int), oe, ne, oldv, newv));
            assert(op.old_end == oe && op.new_end == ne);
            assert(op.old_start <= op.old_end && op.new_start <= op.new_end);
            assert(script_covers(ops@.take(k - 1), op.old_start as int, op.new_start as int, oldv, newv));
        }
        let os = op.old_start;
        let ns = op.new_start;
        match op.kind {
            EditKind::Equal => {
                proof {
                    assert(oldv.subrange(os as int, oe) == newv.subrange(ns as int, ne));
                    assert(oldv.subrange(os as int, oe).len() == oe - os);
                    assert(newv.subrange(ns as int, ne).len() == ne - ns);
                    assert(oe - os == ne - ns);
                    assert forall|j: int| os <= j < oe implies oldv[j] == newv[j - os + ns] by {
                        assert(oldv.subrange(os as int, oe)[j - os] == newv.subrange(
                            ns as int,
                            ne,
                        )[j - os]);
                    }
                    assert(arr_items(*a, *t) =~= items_for(oldv).subrange(0, os as int)
                        + items_for(newv).subrange(ns as int, newv.len() as int));
                }
            },
            EditKind::Delete => {
                let ghost before = arr_items(*a, *t);
                arr_remove_range(a, t, os as u32, (op.old_end - os) as u32);
                proof {
                    lemma_field_overwrite(
                        g0,
                        gid,
                        gf,
                        Val::VList(before),
                        Val::VList(arr_items(*a, *t)),
                    );
                    assert(arr_items(*a, *t) =~= items_for(oldv).subrange(0, os as int)
                        + items_for(newv).subrange(ns as int, newv.len() as int));
                }
            },
            EditKind::Insert => {
                let ghost before = arr_items(*a, *t);
                let seg = vec_range(new_items, ns, op.new_end);
                proof {
                    assert(before.len() == oe + (newv.len() - ne));
                    assert(views_of(seg@).len() == seg@.len());
                    assert(newv.subrange(ns as int, op.new_end as int).len() == op.new_end - ns);
                    assert(seg@.len() == ne - ns);
                }
                arr_insert_range(a, t, os as u32, &seg);
                proof {
                    lemma_field_overwrite(
                        g0,
                        gid,
                        gf,
                        Val::VList(before),
                        Val::VList(arr_items(*a, *t)),
                    );
                    assert(seg@.map_values(|s: String| Item::IStr(s@)) =~= items_for(
                        newv.subrange(ns as int, op.new_end as int),
                    ));
                    assert(arr_items(*a, *t) =~= items_for(oldv).subrange(0, os as int)
                        + items_for(newv).subrange(ns as int, newv.len() as int));
                }
            },
            EditKind::Replace => {
                let ghost before = arr_items(*a, *t);
                arr_remove_range(a, t, os as u32, (op.old_end - os) as u32);
                proof {
                    lemma_field_overwrite(
                        g0,
                        gid,
                        gf,
                        Val::VList(before),
                        Val::VList(arr_items(*a, *t)),
                    );
                    assert(arr_items(*a, *t) =~= items_for(oldv).subrange(0, os as int)
                        + items_for(newv).subrange(ne, newv.len() as int));
                }
                let ghost mid = arr_items(*a, *t);
                let seg = vec_range(new_items, ns, op.new_end);
                proof {
                    assert(mid.len() == os + (newv.len() - ne));
                    assert(views_of(seg@).len() == seg@.len());
                    assert(newv.subrange(ns as int, op.new_end as int).len() == op.new_end - ns);
                    assert(seg@.len() == ne - ns);
                }
                arr_insert_range(a, t, os as u32, &seg);
                proof {
                    lemma_field_overwrite(
                        g0,
                        gid,
                        gf,
                        Val::VList(mid),
                        Val::VList(arr_items(*a, *t)),
                    );
                    assert(seg@.map_values(|s: String| Item::IStr(s@)) =~= items_for(
                        newv.subrange(ns as int, op.new_end as int),
                    ));
                    assert(arr_items(*a, *t) =~= items_for(oldv).subrange(0, os as int)
                        + items_for(newv).subrange(ns as int, newv.len() as int));
                }
            },
        }
        proof {
            oe = os as int;
            ne = ns as int;
        }
        k = k - 1;
    }
    proof {
        assert(ops@.take(0) =~= Seq::<EditOp>::empty());
        assert(arr_items(*a, *t) =~= items_for(newv));
        assert(Val::VList(arr_items(*a, *t)) == children_val(newv));
    }
}

} // verus!
