//! Reconciliation of a scan of one user's folder with that user's catalog:
//! which drafts are new, and which catalog rows lost their file.

use vstd::prelude::*;
use crate::photo::{Photo, PhotoBody};

verus! {

/// The number of drafts inserted in one statement.
pub const INSERT_BATCH_SIZE: usize = 512;

/// Some row of `user` in the catalog has the full name `name`.
pub open spec fn cataloged(user: Seq<char>, existing: Seq<Photo>, name: Seq<char>) -> bool {
    exists|i: int|
        0 <= i < existing.len() && (#[trigger] existing[i]).user_id@ == user
            && existing[i].full_name_spec() == name
}

/// A draft whose full name no row of the user holds.
pub open spec fn is_new_draft(user: Seq<char>, existing: Seq<Photo>) -> spec_fn(PhotoBody) -> bool {
    |p: PhotoBody| !cataloged(user, existing, p.full_name_spec())
}

/// The drafts to insert: those not yet in the catalog, in scan order.
pub open spec fn new_drafts(user: Seq<char>, found: Seq<PhotoBody>, existing: Seq<Photo>) -> Seq<
    PhotoBody,
> {
    found.filter(is_new_draft(user, existing))
}

/// The ids of the user's rows whose file is gone, in catalog order;
/// `present[i]` tells whether the file of `existing[i]` is on disk.
pub open spec fn missing_ids(user: Seq<char>, existing: Seq<Photo>, present: Seq<bool>) -> Seq<i64>
    decreases existing.len(),
{
    if existing.len() == 0 {
        seq![]
    } else {
        let n = existing.len() - 1;
        let prev = missing_ids(user, existing.drop_last(), present);
        if existing[n].user_id@ == user && !present[n] {
            prev.push(existing[n].id)
        } else {
            prev
        }
    }
}

/// Whether a row of `user` in `existing` has the full name `name`.
fn is_cataloged(user: &String, existing: &Vec<Photo>, name: &String) -> (r: bool)
    ensures
        r == cataloged(user@, existing@, name@),
{
    let mut i: usize = 0;
    while i < existing.len()
        invariant
            i <= existing.len(),
            forall|j: int|
                0 <= j < i ==> !((#[trigger] existing@[j]).user_id@ == user@
                    && existing@[j].full_name_spec() == name@),
        decreases existing.len() - i,
    {
        let row = &existing[i];
        if row.user_id == *user {
            let full = row.full_name();
            if full == *name {
                return true;
            }
        }
        i = i + 1;
    }
    false
}

/// The drafts of `user` that the catalog does not hold yet, in scan order.
pub fn new_photos(user: &String, found: &Vec<PhotoBody>, existing: &Vec<Photo>) -> (r: Vec<
    PhotoBody,
>)
    ensures
        r@ == new_drafts(user@, found@, existing@),
{
    let ghost pred = is_new_draft(user@, existing@);
    let mut out: Vec<PhotoBody> = Vec::new();
    let mut i: usize = 0;
    while i < found.len()
        invariant
            i <= found.len(),
            pred == is_new_draft(user@, existing@),
            out@ == found@.subrange(0, i as int).filter(pred),
        decreases found.len() - i,
    {
        let p = &found[i];
        let name = p.full_name();
        let known = is_cataloged(user, existing, &name);
        proof {
            let s = found@.subrange(0, i + 1);
            assert(s.drop_last() =~= found@.subrange(0, i as int));
            assert(s.last() == found@[i as int]);
            reveal(Seq::filter);
        }
        if !known {
            out.push(p.duplicate());
        }
        i = i + 1;
    }
    assert(found@.subrange(0, found.len() as int) =~= found@);
    out
}

/// The ids of the rows of `user` whose file is no longer on disk;
/// `present[i]` tells whether the file of `existing[i]` is there.
pub fn removed_photos(user: &String, existing: &Vec<Photo>, present: &Vec<bool>) -> (r: Vec<i64>)
    requires
        present.len() == existing.len(),
    ensures
        r@ == missing_ids(user@, existing@, present@),
{
    let mut out: Vec<i64> = Vec::new();
    let mut i: usize = 0;
    while i < existing.len()
        invariant
            i <= existing.len(),
            present.len() == existing.len(),
            out@ == missing_ids(user@, existing@.subrange(0, i as int), present@),
        decreases existing.len() - i,
    {
        let row = &existing[i];
        proof {
            let s = existing@.subrange(0, i + 1);
            assert(s.drop_last() =~= existing@.subrange(0, i as int));
        }
        if row.user_id == *user && !present[i] {
            out.push(row.id);
        }
        i = i + 1;
    }
    assert(existing@.subrange(0, existing.len() as int) =~= existing@);
    out
}

/// What a reconciliation pass does for one user: the drafts to insert and the
/// ids to delete.
pub struct Reconciliation {
    pub inserts: Vec<PhotoBody>,
    pub deletions: Vec<i64>,
}

/// Reconciles a scan of `user`'s folder with the catalog rows `existing`:
/// drafts whose full name the user's rows lack are inserted, and the user's
/// rows whose file is gone (`present[i]` false) are deleted. Rows whose file
/// is still there are left as they are.
pub fn reconcile(user: &String, found: &Vec<PhotoBody>, existing: &Vec<Photo>, present: &Vec<bool>) -> (r:
    Reconciliation)
    requires
        present.len() == existing.len(),
    ensures
        r.inserts@ == new_drafts(user@, found@, existing@),
        r.deletions@ == missing_ids(user@, existing@, present@),
{
    let inserts = new_photos(user, found, existing);
    let deletions = removed_photos(user, existing, present);
    Reconciliation { inserts, deletions }
}

/// The bounds `[start, end)` of the consecutive batches of at most `size`
/// items that cover `len` items.
pub open spec fn batch_bounds(len: int, size: int, k: int) -> (int, int) {
    (k * size, if (k + 1) * size < len { (k + 1) * size } else { len })
}

/// Splits `len` items into consecutive batches of `size`, the last one
/// possibly shorter.
pub fn batches(len: usize, size: usize) -> (r: Vec<(usize, usize)>)
    requires
        size > 0,
    ensures
        r.len() == (len as int + size as int - 1) / size as int,
        forall|k: int|
            0 <= k < r.len() ==> (r@[k].0 as int, r@[k].1 as int) == batch_bounds(
                len as int,
                size as int,
                k,
            ),
{
    let mut out: Vec<(usize, usize)> = Vec::new();
    let mut start: usize = 0;
    assert(out.len() * size == 0) by (nonlinear_arith)
        requires
            out.len() == 0,
    ;
    while start < len
        invariant
            size > 0,
            start <= len,
            start < len ==> start as int == out.len() * size,
            start == len ==> (out.len() == 0 && len == 0) || (out.len() > 0 && (out.len() - 1) * size
                < len && len <= out.len() * size),
            forall|k: int|
                0 <= k < out.len() ==> (out@[k].0 as int, out@[k].1 as int) == batch_bounds(
                    len as int,
                    size as int,
                    k,
                ),
        decreases len - start,
    {
        let end: usize = if len - start > size {
            start + size
        } else {
            len
        };
        proof {
            assert((out.len() + 1) * size == out.len() * size + size) by (nonlinear_arith);
            assert(batch_bounds(len as int, size as int, out.len() as int) == (start as int, end as int));
        }
        out.push((start, end));
        start = end;
    }
    proof {
        let n = out.len() as int;
        let s = size as int;
        let l = len as int;
        if n == 0 {
            assert(l == 0);
            assert((l + s - 1) / s == 0) by (nonlinear_arith)
                requires
                    l == 0,
                    s > 0,
            ;
        } else {
            assert((n - 1) * s < l);
            assert(l <= n * s);
            assert((l + s - 1) / s == n) by (nonlinear_arith)
                requires
                    (n - 1) * s < l,
                    l <= n * s,
                    s > 0,
            ;
        }
    }
    out
}

proof fn lemma_filter_keeps_one(s: Seq<PhotoBody>, pred: spec_fn(PhotoBody) -> bool, k: int)
    requires
        0 <= k < s.len(),
        pred(s[k]),
        forall|j: int| 0 <= j < s.len() && j != k ==> !pred(#[trigger] s[j]),
    ensures
        s.filter(pred) == seq![s[k]],
    decreases s.len(),
{
    reveal(Seq::filter);
    let n = s.len() - 1;
    if k == n {
        lemma_filter_keeps_none(s.drop_last(), pred);
        assert(s.filter(pred) =~= seq![s[k]]);
    } else {
        lemma_filter_keeps_one(s.drop_last(), pred, k);
        assert(!pred(s[n]));
    }
}

proof fn lemma_filter_keeps_none(s: Seq<PhotoBody>, pred: spec_fn(PhotoBody) -> bool)
    requires
        forall|j: int| 0 <= j < s.len() ==> !pred(#[trigger] s[j]),
    ensures
        s.filter(pred) == Seq::<PhotoBody>::empty(),
    decreases s.len(),
{
    reveal(Seq::filter);
    if s.len() > 0 {
        lemma_filter_keeps_none(s.drop_last(), pred);
        assert(!pred(s[s.len() - 1]));
    }
}

proof fn lemma_missing_one(user: Seq<char>, existing: Seq<Photo>, present: Seq<bool>, k: int)
    requires
        present.len() >= existing.len(),
        0 <= k < existing.len(),
        existing[k].user_id@ == user,
        !present[k],
        forall|j: int| 0 <= j < existing.len() && j != k ==> #[trigger] present[j],
    ensures
        missing_ids(user, existing, present) == seq![existing[k].id],
    decreases existing.len(),
{
    let n = existing.len() - 1;
    if k == n {
        lemma_missing_none(user, existing.drop_last(), present);
        assert(missing_ids(user, existing, present) =~= seq![existing[k].id]);
    } else {
        lemma_missing_one(user, existing.drop_last(), present, k);
        assert(present[n]);
    }
}

proof fn lemma_missing_none(user: Seq<char>, existing: Seq<Photo>, present: Seq<bool>)
    requires
        present.len() >= existing.len(),
        forall|j: int| 0 <= j < existing.len() ==> #[trigger] present[j],
    ensures
        missing_ids(user, existing, present) == Seq::<i64>::empty(),
    decreases existing.len(),
{
    if existing.len() > 0 {
        lemma_missing_none(user, existing.drop_last(), present);
        assert(present[existing.len() - 1]);
    }
}

/// A rescan that finds every cataloged file still on disk, and one file more
/// that the catalog lacks, inserts exactly that file and deletes nothing.
pub proof fn lemma_rescan_finds_one_new_file(
    user: Seq<char>,
    found: Seq<PhotoBody>,
    existing: Seq<Photo>,
    present: Seq<bool>,
    k: int,
)
    requires
        present.len() == existing.len(),
        forall|i: int| 0 <= i < present.len() ==> #[trigger] present[i],
        0 <= k < found.len(),
        !cataloged(user, existing, found[k].full_name_spec()),
        forall|j: int|
            0 <= j < found.len() && j != k ==> cataloged(user, existing, (#[trigger] found[j]).full_name_spec()),
    ensures
        new_drafts(user, found, existing) == seq![found[k]],
        missing_ids(user, existing, present) == Seq::<i64>::empty(),
{
    let pred = is_new_draft(user, existing);
    assert forall|j: int| 0 <= j < found.len() && j != k implies !pred(#[trigger] found[j]) by {}
    lemma_filter_keeps_one(found, pred, k);
    lemma_missing_none(user, existing, present);
}

/// A rescan after one cataloged file of the user was removed from disk, that
/// finds no file the catalog lacks, inserts nothing and deletes exactly that
/// file's row.
pub proof fn lemma_rescan_after_one_removal(
    user: Seq<char>,
    found: Seq<PhotoBody>,
    existing: Seq<Photo>,
    present: Seq<bool>,
    k: int,
)
    requires
        present.len() == existing.len(),
        0 <= k < existing.len(),
        existing[k].user_id@ == user,
        !present[k],
        forall|i: int| 0 <= i < present.len() && i != k ==> #[trigger] present[i],
        forall|j: int|
            0 <= j < found.len() ==> cataloged(user, existing, (#[trigger] found[j]).full_name_spec()),
    ensures
        new_drafts(user, found, existing) == Seq::<PhotoBody>::empty(),
        missing_ids(user, existing, present) == seq![existing[k].id],
{
    let pred = is_new_draft(user, existing);
    assert forall|j: int| 0 <= j < found.len() implies !pred(#[trigger] found[j]) by {}
    lemma_filter_keeps_none(found, pred);
    lemma_missing_one(user, existing, present, k);
}

} // verus!
