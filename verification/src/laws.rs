//! Laws of the entry store, proved over the spec transitions of `store`:
//! what a read shows after a create, a filtered read, a delete, a renaming
//! edit, and a status update that matches nothing.

use vstd::prelude::*;
use crate::cli::FlagView;
use crate::entry::{EditedEntryView, EntryView, NewEntryView};
use crate::status::{status_name, Status};
use crate::store::{
    created_entry, edit_one, flag_pred, keeps_title, spec_create, spec_delete, spec_edit,
    spec_read, spec_update, update_one,
};
use crate::util::trim_spec;

verus! {

/// Filtering two predicates that agree on every element of the sequence
/// yields the same result.
pub proof fn lemma_filter_agree<A>(s: Seq<A>, p: spec_fn(A) -> bool, q: spec_fn(A) -> bool)
    requires
        forall|i: int| 0 <= i < s.len() ==> p(#[trigger] s[i]) == q(s[i]),
    ensures
        s.filter(p) == s.filter(q),
    decreases s.len(),
{
    reveal(Seq::filter);
    if s.len() > 0 {
        lemma_filter_agree(s.drop_last(), p, q);
    }
}

/// Every element of a filtered sequence stands somewhere in the original.
pub proof fn lemma_filter_subset<A>(s: Seq<A>, pred: spec_fn(A) -> bool)
    ensures
        forall|k: int| 0 <= k < s.filter(pred).len() ==> s.contains(#[trigger] s.filter(pred)[k]),
    decreases s.len(),
{
    reveal(Seq::filter);
    if s.len() > 0 {
        let t = s.drop_last();
        lemma_filter_subset(t, pred);
        assert forall|k: int|
            0 <= k < s.filter(pred).len() implies s.contains(#[trigger] s.filter(pred)[k]) by {
            if pred(s.last()) && k == s.filter(pred).len() - 1 {
                assert(s.filter(pred)[k] == s[s.len() - 1]);
            } else {
                assert(s.filter(pred)[k] == t.filter(pred)[k]);
                assert(t.contains(t.filter(pred)[k]));
                let j = choose|j: int| 0 <= j < t.len() && t[j] == t.filter(pred)[k];
                assert(s[j] == s.filter(pred)[k]);
            }
        }
    }
}

/// A filter keeps exactly the elements of the sequence that satisfy the
/// predicate: membership in the result characterises them.
pub proof fn lemma_filter_membership<A>(s: Seq<A>, pred: spec_fn(A) -> bool)
    ensures
        forall|x: A| s.filter(pred).contains(x) <==> (s.contains(x) && pred(x)),
{
    broadcast use vstd::seq_lib::group_filter_ensures;

    lemma_filter_subset(s, pred);
    assert forall|x: A| s.filter(pred).contains(x) implies (s.contains(x) && pred(x)) by {
        let k = choose|k: int| 0 <= k < s.filter(pred).len() && s.filter(pred)[k] == x;
        assert(s.contains(s.filter(pred)[k]));
        assert(pred(s.filter(pred)[k]));
    }
    assert forall|x: A| (s.contains(x) && pred(x)) implies s.filter(pred).contains(x) by {
        let j = choose|j: int| 0 <= j < s.len() && s[j] == x;
        assert(s.filter(pred).contains(s[j]));
    }
}

/// Filtering a sequence every element of which satisfies the predicate
/// changes nothing.
pub proof fn lemma_filter_all<A>(s: Seq<A>, pred: spec_fn(A) -> bool)
    requires
        forall|i: int| 0 <= i < s.len() ==> pred(#[trigger] s[i]),
    ensures
        s.filter(pred) == s,
    decreases s.len(),
{
    reveal(Seq::filter);
    if s.len() > 0 {
        lemma_filter_all(s.drop_last(), pred);
        assert(s.drop_last().push(s.last()) =~= s);
    }
}

/// Mapping and filtering commute when the predicate on the mapped elements
/// agrees with the one on the originals.
pub proof fn lemma_map_filter_commute<A, B>(
    s: Seq<A>,
    f: spec_fn(A) -> B,
    p: spec_fn(A) -> bool,
    q: spec_fn(B) -> bool,
)
    requires
        forall|i: int| 0 <= i < s.len() ==> q(f(#[trigger] s[i])) == p(s[i]),
    ensures
        s.map_values(f).filter(q) == s.filter(p).map_values(f),
    decreases s.len(),
{
    reveal(Seq::filter);
    if s.len() == 0 {
        assert(s.map_values(f) =~= Seq::<B>::empty());
        assert(s.filter(p).map_values(f) =~= Seq::<B>::empty());
    } else {
        let t = s.drop_last();
        lemma_map_filter_commute(t, f, p, q);
        assert(s.map_values(f).drop_last() =~= t.map_values(f));
        assert(s.map_values(f).last() == f(s.last()));
        if p(s.last()) {
            assert(t.filter(p).push(s.last()).map_values(f) =~= t.filter(p).map_values(f).push(
                f(s.last()),
            ));
        }
    }
}

/// Law: creating an entry and then reading everything shows exactly the old
/// population plus one more entry, standing last, whose fields are the
/// request's — title and description trimmed — except that its status is
/// forced to `Active` and its identifier is the one the store assigned.
pub proof fn lemma_create_then_read_all(s: Seq<EntryView>, n: NewEntryView, id: int)
    ensures
        spec_read(spec_create(s, n, id), None) == spec_read(s, None).push(created_entry(n, id)),
        spec_read(spec_create(s, n, id), None).len() == spec_read(s, None).len() + 1,
        spec_read(spec_create(s, n, id), None).last() == created_entry(n, id),
        spec_read(spec_create(s, n, id), None).take(s.len() as int) == spec_read(s, None),
        created_entry(n, id).title == trim_spec(n.title),
        created_entry(n, id).description == trim_spec(n.description),
        created_entry(n, id).category == n.category,
        created_entry(n, id).status == Status::Active,
        created_entry(n, id).id == id,
{
    assert(spec_create(s, n, id).take(s.len() as int) =~= s);
}

/// Law: a read filtered by a status name alone returns exactly the entries
/// whose status carries that name — every one of them, nothing else, in
/// store order — for any population of entries, including the empty one.
pub proof fn lemma_read_filtered_by_status(s: Seq<EntryView>, st: Seq<char>)
    ensures
        spec_read(s, Some(FlagView { status: Some(st), category: None })) == s.filter(
            |e: EntryView| status_name(e.status) == st,
        ),
        forall|x: EntryView|
            spec_read(s, Some(FlagView { status: Some(st), category: None })).contains(x) <==> (
            s.contains(x) && status_name(x.status) == st),
{
    let f = FlagView { status: Some(st), category: None };
    let p = |e: EntryView| status_name(e.status) == st;
    lemma_filter_agree(s, flag_pred(f), p);
    lemma_filter_membership(s, p);
}

/// Law: after a delete no entry with that exact title remains in an
/// unfiltered read, and deleting the same title again changes nothing —
/// the repeated call is again a success, not an error.
pub proof fn lemma_delete_removes_title(s: Seq<EntryView>, t: Seq<char>)
    ensures
        forall|k: int|
            0 <= k < spec_read(spec_delete(s, t), None).len() ==> (#[trigger] spec_read(
                spec_delete(s, t),
                None,
            )[k]).title != t,
        spec_delete(spec_delete(s, t), t) == spec_delete(s, t),
{
    broadcast use vstd::seq_lib::group_filter_ensures;

    lemma_filter_all(spec_delete(s, t), keeps_title(t));
}

/// Law: an edit aimed at `t` that renames to a fresh title leaves no entry
/// under the old title, touches no entry that was not titled `t`, and the
/// entries found under the new title afterwards are exactly the old ones
/// titled `t`, renamed and rewritten — in particular, one old match means
/// one entry under the new title, carrying the payload's fields.
pub proof fn lemma_edit_renames(s: Seq<EntryView>, t: Seq<char>, ed: EditedEntryView)
    requires
        ed.title != t,
        forall|k: int| 0 <= k < s.len() ==> (#[trigger] s[k]).title != ed.title,
    ensures
        forall|k: int|
            0 <= k < spec_edit(s, t, ed).len() ==> (#[trigger] spec_edit(s, t, ed)[k]).title != t,
        forall|k: int|
            0 <= k < s.len() && (#[trigger] s[k]).title != t ==> spec_edit(s, t, ed)[k] == s[k],
        spec_edit(s, t, ed).filter(|e: EntryView| e.title == ed.title) == s.filter(
            |e: EntryView| e.title == t,
        ).map_values(|e: EntryView| edit_one(e, t, ed)),
{
    let f = |e: EntryView| edit_one(e, t, ed);
    let p = |e: EntryView| e.title == t;
    let q = |e: EntryView| e.title == ed.title;
    lemma_map_filter_commute(s, f, p, q);
    assert(spec_edit(s, t, ed) =~= s.map_values(f));
}

/// Law: a status update aimed at a title that no entry carries succeeds as
/// a no-op: a subsequent unfiltered read shows the population unchanged.
pub proof fn lemma_update_missing_title(s: Seq<EntryView>, t: Seq<char>, st: Status)
    requires
        forall|k: int| 0 <= k < s.len() ==> (#[trigger] s[k]).title != t,
    ensures
        spec_update(s, t, st) == s,
        spec_read(spec_update(s, t, st), None) == s,
{
    assert(spec_update(s, t, st) =~= s);
}

/// Law: a status update rewrites exactly the matching titles: every entry
/// whose title matches carries the new status afterwards, and every other
/// entry is untouched.
pub proof fn lemma_update_sets_status(s: Seq<EntryView>, t: Seq<char>, st: Status)
    ensures
        spec_update(s, t, st).len() == s.len(),
        forall|k: int|
            0 <= k < s.len() && (#[trigger] s[k]).title == t ==> spec_update(s, t, st)[k]
                == update_one(s[k], t, st) && spec_update(s, t, st)[k].status == st,
        forall|k: int|
            0 <= k < s.len() && (#[trigger] s[k]).title != t ==> spec_update(s, t, st)[k] == s[k],
{
}

} // verus!
