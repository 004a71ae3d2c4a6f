//! A model of the user collection as a map from identifier bytes to records,
//! with the effect of each store operation on it, and the laws that connect
//! the operations.

use crate::password::{bcrypt_of, is_password_hash, salt_of};
use crate::record::{RepoError, UserView};
use crate::store::{outcome_of, stored_form, update_outcome_of, updated_record};
use vstd::prelude::*;

verus! {

/// The record stored under `id`, if any.
pub open spec fn find_in(c: Map<Seq<u8>, UserView>, id: Seq<u8>) -> Option<UserView> {
    if c.contains_key(id) {
        Some(c[id])
    } else {
        None
    }
}

/// The outcome of get and delete on `id`: the record matched, which delete
/// reports as it was before it removed it.
pub open spec fn get_in(c: Map<Seq<u8>, UserView>, id: Seq<u8>) -> Result<UserView, RepoError> {
    outcome_of(find_in(c, id))
}

/// The collection after create stored `doc` under the fresh identifier `id`.
pub open spec fn create_in(c: Map<Seq<u8>, UserView>, id: Seq<u8>, doc: UserView) -> Map<
    Seq<u8>,
    UserView,
> {
    c.insert(id, UserView { id: Some(id), ..doc })
}

/// The collection after delete on `id`.
pub open spec fn delete_in(c: Map<Seq<u8>, UserView>, id: Seq<u8>) -> Map<Seq<u8>, UserView> {
    c.remove(id)
}

/// The collection after update on `id` set the fields of `doc`; a missing
/// record is not created.
pub open spec fn update_in(c: Map<Seq<u8>, UserView>, id: Seq<u8>, doc: UserView) -> Map<
    Seq<u8>,
    UserView,
> {
    if c.contains_key(id) {
        c.insert(id, updated_record(c[id], doc))
    } else {
        c
    }
}

/// The outcome of update on `id` writing the fields of `doc`: the record as
/// updated, or not-found.
pub open spec fn update_result_in(c: Map<Seq<u8>, UserView>, id: Seq<u8>, doc: UserView) -> Result<
    UserView,
    RepoError,
> {
    update_outcome_of(find_in(c, id), doc)
}

/// How many records a listing of the collection yields.
pub open spec fn list_count(c: Map<Seq<u8>, UserView>) -> nat {
    c.dom().len()
}

/// The collection after creating `docs[i]` under `ids[i]`, in order.
pub open spec fn create_all(c: Map<Seq<u8>, UserView>, ids: Seq<Seq<u8>>, docs: Seq<UserView>) -> Map<
    Seq<u8>,
    UserView,
>
    decreases ids.len(),
{
    if ids.len() == 0 || docs.len() == 0 {
        c
    } else {
        create_in(create_all(c, ids.drop_last(), docs.drop_last()), ids.last(), docs.last())
    }
}

/// The collection after deleting each of `ids`, in order.
pub open spec fn delete_all(c: Map<Seq<u8>, UserView>, ids: Seq<Seq<u8>>) -> Map<Seq<u8>, UserView>
    decreases ids.len(),
{
    if ids.len() == 0 {
        c
    } else {
        delete_in(delete_all(c, ids.drop_last()), ids.last())
    }
}

/// Creating records under distinct fresh identifiers adds one record each.
proof fn lemma_create_all(c: Map<Seq<u8>, UserView>, ids: Seq<Seq<u8>>, docs: Seq<UserView>)
    requires
        c.dom().finite(),
        ids.len() == docs.len(),
        ids.no_duplicates(),
        forall|i: int| 0 <= i < ids.len() ==> !c.contains_key(#[trigger] ids[i]),
    ensures
        create_all(c, ids, docs).dom().finite(),
        create_all(c, ids, docs).dom().len() == c.dom().len() + ids.len(),
        forall|k: Seq<u8>| #[trigger]
            create_all(c, ids, docs).contains_key(k) <==> (c.contains_key(k) || ids.contains(k)),
    decreases ids.len(),
{
    if ids.len() > 0 {
        let pre = ids.drop_last();
        assert forall|i: int, j: int| 0 <= i < pre.len() && 0 <= j < pre.len() && i != j implies pre[i]
            != pre[j] by {
            assert(pre[i] == ids[i] && pre[j] == ids[j]);
        }
        assert forall|i: int| 0 <= i < pre.len() implies !c.contains_key(#[trigger] pre[i]) by {
            assert(pre[i] == ids[i]);
        }
        lemma_create_all(c, pre, docs.drop_last());
        let last = ids.last();
        let m = create_all(c, pre, docs.drop_last());
        assert(!pre.contains(last)) by {
            if pre.contains(last) {
                let i = choose|i: int| 0 <= i < pre.len() && pre[i] == last;
                assert(ids[i] == ids[ids.len() - 1]);
            }
        }
        assert(!c.contains_key(ids[ids.len() - 1]));
        assert(!m.dom().contains(last));
        assert forall|k: Seq<u8>| #[trigger]
            create_all(c, ids, docs).contains_key(k) <==> (c.contains_key(k) || ids.contains(k)) by {
            if ids.contains(k) && k != last {
                let i = choose|i: int| 0 <= i < ids.len() && ids[i] == k;
                assert(pre[i] == k);
            }
            if pre.contains(k) {
                let i = choose|i: int| 0 <= i < pre.len() && pre[i] == k;
                assert(ids[i] == k);
            }
            assert(ids[ids.len() - 1] == last);
        }
    }
}

/// Deleting distinct stored identifiers removes one record each.
proof fn lemma_delete_all(c: Map<Seq<u8>, UserView>, ids: Seq<Seq<u8>>)
    requires
        c.dom().finite(),
        ids.no_duplicates(),
        forall|i: int| 0 <= i < ids.len() ==> c.contains_key(#[trigger] ids[i]),
    ensures
        delete_all(c, ids).dom().finite(),
        delete_all(c, ids).dom().len() == c.dom().len() - ids.len(),
        forall|k: Seq<u8>| #[trigger]
            delete_all(c, ids).contains_key(k) <==> (c.contains_key(k) && !ids.contains(k)),
    decreases ids.len(),
{
    if ids.len() > 0 {
        let pre = ids.drop_last();
        assert forall|i: int, j: int| 0 <= i < pre.len() && 0 <= j < pre.len() && i != j implies pre[i]
            != pre[j] by {
            assert(pre[i] == ids[i] && pre[j] == ids[j]);
        }
        assert forall|i: int| 0 <= i < pre.len() implies c.contains_key(#[trigger] pre[i]) by {
            assert(pre[i] == ids[i]);
        }
        lemma_delete_all(c, pre);
        let last = ids.last();
        let m = delete_all(c, pre);
        assert(!pre.contains(last)) by {
            if pre.contains(last) {
                let i = choose|i: int| 0 <= i < pre.len() && pre[i] == last;
                assert(ids[i] == ids[ids.len() - 1]);
            }
        }
        assert(c.contains_key(ids[ids.len() - 1]));
        assert(m.dom().contains(last));
        assert forall|k: Seq<u8>| #[trigger]
            delete_all(c, ids).contains_key(k) <==> (c.contains_key(k) && !ids.contains(k)) by {
            if ids.contains(k) && k != last {
                let i = choose|i: int| 0 <= i < ids.len() && ids[i] == k;
                assert(pre[i] == k);
            }
            if pre.contains(k) {
                let i = choose|i: int| 0 <= i < pre.len() && pre[i] == k;
                assert(ids[i] == k);
            }
            assert(ids[ids.len() - 1] == last);
        }
    }
}

/// A record created from `candidate` and then read back by its identifier has
/// that identifier, the candidate's name and email, and as password the hash
/// of the candidate's password, which differs from it (a stored password is always a hash; a candidate
/// password that itself has the shape of a hash is left out).
pub proof fn lemma_create_then_get(
    c: Map<Seq<u8>, UserView>,
    id: Seq<u8>,
    candidate: UserView,
    doc: UserView,
)
    requires
        stored_form(candidate, doc),
        !is_password_hash(candidate.password),
    ensures
        get_in(create_in(c, id, doc), id) matches Ok(u) && u.id == Some(id) && u.name
            == candidate.name && u.email == candidate.email && u.password == bcrypt_of(
            candidate.password,
            salt_of(u.password),
        ) && u.password != candidate.password,
{
}

/// After a delete, a get on the same identifier finds nothing.
pub proof fn lemma_delete_then_get(c: Map<Seq<u8>, UserView>, id: Seq<u8>)
    ensures
        get_in(delete_in(c, id), id) == Err::<UserView, RepoError>(RepoError::NotFound),
{
}

/// Starting from an empty collection, creating records under `ids` (distinct,
/// as the store assigns them) and then deleting `removed` (distinct, each one
/// of `ids`) leaves a listing of exactly `ids.len() - removed.len()` records:
/// those whose identifiers were created and not deleted.
pub proof fn lemma_count_after_creates_and_deletes(
    ids: Seq<Seq<u8>>,
    docs: Seq<UserView>,
    removed: Seq<Seq<u8>>,
)
    requires
        ids.len() == docs.len(),
        ids.no_duplicates(),
        removed.no_duplicates(),
        forall|i: int| 0 <= i < removed.len() ==> ids.contains(#[trigger] removed[i]),
    ensures
        removed.len() <= ids.len(),
        list_count(delete_all(create_all(Map::empty(), ids, docs), removed)) == ids.len()
            - removed.len(),
        forall|k: Seq<u8>| #[trigger]
            delete_all(create_all(Map::empty(), ids, docs), removed).contains_key(k) <==> (
            ids.contains(k) && !removed.contains(k)),
{
    let c0 = Map::<Seq<u8>, UserView>::empty();
    lemma_create_all(c0, ids, docs);
    let c = create_all(c0, ids, docs);
    assert forall|i: int| 0 <= i < removed.len() implies c.contains_key(#[trigger] removed[i]) by {}
    lemma_delete_all(c, removed);
    assert(removed.to_set().subset_of(ids.to_set()));
    removed.unique_seq_to_set();
    ids.unique_seq_to_set();
    vstd::set_lib::lemma_len_subset(removed.to_set(), ids.to_set());
}

/// An update on an identifier that matches no record reports not-found and
/// leaves the collection as it was.
pub proof fn lemma_update_missing(c: Map<Seq<u8>, UserView>, id: Seq<u8>, doc: UserView)
    requires
        !c.contains_key(id),
    ensures
        update_result_in(c, id, doc) == Err::<UserView, RepoError>(RepoError::NotFound),
        update_in(c, id, doc) == c,
{
}

/// An update on a stored record reports the record as updated, which is what
/// a get on the same identifier then finds: the record keeps its identifier
/// and takes the written name, email and password.
pub proof fn lemma_update_then_get(c: Map<Seq<u8>, UserView>, id: Seq<u8>, doc: UserView)
    requires
        c.contains_key(id),
    ensures
        update_result_in(c, id, doc) == get_in(update_in(c, id, doc), id),
        get_in(update_in(c, id, doc), id) matches Ok(u) && u.id == c[id].id && u.name == doc.name
            && u.email == doc.email && u.password == doc.password,
{
}

} // verus!
