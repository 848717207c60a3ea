//! The five operations that every kind of record offers to its owner:
//! list, create, get, update and delete. Each one that names a record
//! selects it by identifier and owner together, so that a record of
//! another owner is as good as absent.

use vstd::prelude::*;
use vstd::string::StringExecFns;

use crate::error::{AppError, Failure};
use crate::ident::{lemma_hex_round_trip, parse_id, parsed, well_formed, ObjectId};
use crate::store::{
    admits, distinct_ids, found, is_first, lemma_filter_skips_remove, lemma_filter_skips_update,
    lemma_first_is, lemma_first_none, lemma_first_some, owned, owned_by, revised, selects, slot,
    unused, views, without, Collection, Filter, Owned, Patch,
};
use crate::values::Timestamp;

verus! {

/// A result as its caller sees it: the view of what it holds.
pub open spec fn shown<T: View>(r: Result<T, AppError>) -> Result<T::V, Failure> {
    match r {
        Ok(t) => Ok(t@),
        Err(e) => Err(e@),
    }
}

/// The filter for the record that `raw` names, in the hands of `owner`;
/// none where `raw` is not the text of an identifier.
pub open spec fn scope_of(owner: ObjectId, raw: Seq<char>) -> Option<Filter> {
    if well_formed(raw) {
        Some(Filter { id: parsed(raw), user_id: owner })
    } else {
        None
    }
}

/// The collection after `create`, and what `create` answers. `next` is
/// the identifier that a new record gets, `full` says that none is left.
pub open spec fn create_outcome<T: Owned>(docs: Seq<T::V>, next: ObjectId, full: bool, doc: T::V) -> (
    Seq<T::V>,
    Result<T::V, Failure>,
) {
    if full {
        (docs, Err(Failure::InternalError("No identifier left"@)))
    } else {
        (docs.push(T::with_id(doc, next)), Ok(T::with_id(doc, next)))
    }
}

/// What `get` answers.
pub open spec fn get_outcome<T: Owned>(
    docs: Seq<T::V>,
    owner: ObjectId,
    raw: Seq<char>,
    missing: Seq<char>,
) -> Result<T::V, Failure> {
    match scope_of(owner, raw) {
        None => Err(Failure::BadRequest("Invalid ID"@)),
        Some(f) => match found::<T>(docs, f) {
            Some(v) => Ok(v),
            None => Err(Failure::NotFound(missing)),
        },
    }
}

/// What `update` answers.
pub open spec fn update_outcome<T: Owned, P: Patch<T>>(
    docs: Seq<T::V>,
    owner: ObjectId,
    raw: Seq<char>,
    patch: P,
    now: Timestamp,
    missing: Seq<char>,
) -> Result<T::V, Failure> {
    match scope_of(owner, raw) {
        None => Err(Failure::BadRequest("Invalid ID"@)),
        Some(f) => match found::<T>(docs, f) {
            Some(v) => Ok(patch.applied(v, now)),
            None => Err(Failure::NotFound(missing)),
        },
    }
}

/// The collection after `update`.
pub open spec fn after_update<T: Owned, P: Patch<T>>(
    docs: Seq<T::V>,
    owner: ObjectId,
    raw: Seq<char>,
    patch: P,
    now: Timestamp,
) -> Seq<T::V> {
    match scope_of(owner, raw) {
        None => docs,
        Some(f) => revised::<T, P>(docs, f, patch, now),
    }
}

/// What `delete` answers.
pub open spec fn delete_outcome<T: Owned>(
    docs: Seq<T::V>,
    owner: ObjectId,
    raw: Seq<char>,
    done: Seq<char>,
    missing: Seq<char>,
) -> Result<Seq<char>, Failure> {
    match scope_of(owner, raw) {
        None => Err(Failure::BadRequest("Invalid ID"@)),
        Some(f) => match found::<T>(docs, f) {
            Some(v) => Ok(done),
            None => Err(Failure::NotFound(missing)),
        },
    }
}

/// The collection after `delete`.
pub open spec fn after_delete<T: Owned>(docs: Seq<T::V>, owner: ObjectId, raw: Seq<char>) -> Seq<T::V> {
    match scope_of(owner, raw) {
        None => docs,
        Some(f) => without::<T>(docs, f),
    }
}

/// Reads the identifier that a request names and binds it to the owner
/// of the request. A malformed identifier is refused here, before any
/// collection is touched.
pub fn scope(owner: ObjectId, raw: &str) -> (r: Result<Filter, AppError>)
    ensures
        match scope_of(owner, raw@) {
            Some(f) => r == Ok::<Filter, AppError>(f),
            None => r is Err && r->Err_0@ == Failure::BadRequest("Invalid ID"@),
        },
{
    match parse_id(raw, "Invalid ID") {
        Ok(id) => Ok(Filter { id, user_id: owner }),
        Err(e) => Err(e),
    }
}

/// Turns what a lookup gave into the answer: the record, or `NotFound`
/// with the text `missing`. A record of another owner was never looked
/// up, so it is missing like one that does not exist.
pub fn found_or_missing<T>(hit: Option<T>, missing: &str) -> (r: Result<T, AppError>)
    ensures
        match hit {
            Some(doc) => r == Ok::<T, AppError>(doc),
            None => r is Err && r->Err_0@ == Failure::NotFound(missing@),
        },
{
    match hit {
        Some(doc) => Ok(doc),
        None => Err(AppError::not_found(missing)),
    }
}

/// Turns the number of records that a removal took into the answer:
/// the text `done`, or `NotFound` with the text `missing` where nothing
/// was removed.
pub fn deleted_or_missing(deleted_count: u64, done: &str, missing: &str) -> (r: Result<String, AppError>)
    ensures
        deleted_count == 0 ==> r is Err && r->Err_0@ == Failure::NotFound(missing@),
        deleted_count != 0 ==> r is Ok && r->Ok_0@ == done@,
{
    if deleted_count == 0 {
        Err(AppError::not_found(missing))
    } else {
        Ok(String::from_str(done))
    }
}

/// All records of `owner`, in the order of the collection.
pub fn list<T: Owned>(coll: &Collection<T>, owner: ObjectId) -> (r: Vec<T>)
    ensures
        distinct_ids::<T>(coll@),
        views(r@) == owned_by::<T>(coll@, owner),
{
    let _ = coll.len();
    coll.find(owner)
}

/// Stores a new record and returns it as stored, with its identifier.
/// Fails only where the collection has no identifier left to give.
pub fn create<T: Owned>(coll: &mut Collection<T>, doc: T) -> (r: Result<T, AppError>)
    ensures
        distinct_ids::<T>(old(coll)@),
        distinct_ids::<T>(final(coll)@),
        unused::<T>(old(coll)@, old(coll).next_id()),
        (final(coll)@, shown(r)) == create_outcome::<T>(
            old(coll)@,
            old(coll).next_id(),
            old(coll).exhausted(),
            doc@,
        ),
{
    let _ = coll.len();
    let mut copy = doc.duplicate();
    match coll.insert_one(doc) {
        Ok(id) => {
            copy.set_key(id);
            Ok(copy)
        },
        Err(e) => Err(e),
    }
}

/// The record that `raw` names, if `owner` has one.
pub fn get<T: Owned>(coll: &Collection<T>, owner: ObjectId, raw: &str, missing: &str) -> (r: Result<
    T,
    AppError,
>)
    ensures
        distinct_ids::<T>(coll@),
        shown(r) == get_outcome::<T>(coll@, owner, raw@, missing@),
{
    let _ = coll.len();
    let f = match scope(owner, raw) {
        Ok(f) => f,
        Err(e) => {
            return Err(e);
        },
    };
    found_or_missing(coll.find_one(&f), missing)
}

/// Applies a partial update to the record that `raw` names, if `owner`
/// has one, and returns the record as it is afterwards.
pub fn update<T: Owned, P: Patch<T>>(
    coll: &mut Collection<T>,
    owner: ObjectId,
    raw: &str,
    patch: P,
    now: Timestamp,
    missing: &str,
) -> (r: Result<T, AppError>)
    ensures
        distinct_ids::<T>(old(coll)@),
        distinct_ids::<T>(final(coll)@),
        shown(r) == update_outcome::<T, P>(old(coll)@, owner, raw@, patch, now, missing@),
        final(coll)@ == after_update::<T, P>(old(coll)@, owner, raw@, patch, now),
        final(coll).next_id() == old(coll).next_id(),
{
    let f = match scope(owner, raw) {
        Ok(f) => f,
        Err(e) => {
            let _ = coll.len();
            return Err(e);
        },
    };
    found_or_missing(coll.find_one_and_update(&f, patch, now), missing)
}

/// Removes the record that `raw` names, if `owner` has one. Removing
/// nothing is a failure, not a success.
pub fn delete<T: Owned>(
    coll: &mut Collection<T>,
    owner: ObjectId,
    raw: &str,
    done: &str,
    missing: &str,
) -> (r: Result<String, AppError>)
    ensures
        distinct_ids::<T>(old(coll)@),
        distinct_ids::<T>(final(coll)@),
        shown(r) == delete_outcome::<T>(old(coll)@, owner, raw@, done@, missing@),
        final(coll)@ == after_delete::<T>(old(coll)@, owner, raw@),
        final(coll).next_id() == old(coll).next_id(),
{
    let f = match scope(owner, raw) {
        Ok(f) => f,
        Err(e) => {
            let _ = coll.len();
            return Err(e);
        },
    };
    let n = coll.delete_one(&f);
    deleted_or_missing(n, done, missing)
}

/// In a valid collection a filter selects at most one record: the one
/// at the place `k`, where that record has the identifier and the owner.
pub proof fn lemma_slot_of<T: Owned>(docs: Seq<T::V>, f: Filter, k: int)
    requires
        distinct_ids::<T>(docs),
        0 <= k < docs.len(),
        admits::<T>(f, docs[k]),
    ensures
        slot::<T>(docs, f) == Some(k),
        found::<T>(docs, f) == Some(docs[k]),
{
    assert forall|j: int| 0 <= j < k implies !selects::<T>(f)(#[trigger] docs[j]) by {
        if admits::<T>(f, docs[j]) {
            assert(T::id_of(docs[j]) == T::id_of(docs[k]));
        }
    }
    assert(is_first(docs, selects::<T>(f), k));
    lemma_first_is(docs, selects::<T>(f), k);
}

/// Tenant isolation. A record of one owner is out of reach of every
/// other owner: to get it, to update it and to delete it all fail as if
/// the record did not exist, and the collection stays as it is.
pub proof fn lemma_foreign_record_is_out_of_reach<T: Owned, P: Patch<T>>(
    docs: Seq<T::V>,
    k: int,
    intruder: ObjectId,
    raw: Seq<char>,
    patch: P,
    now: Timestamp,
    done: Seq<char>,
    missing: Seq<char>,
)
    requires
        distinct_ids::<T>(docs),
        0 <= k < docs.len(),
        T::owner_of(docs[k]) != intruder,
        well_formed(raw),
        T::id_of(docs[k]) == Some(parsed(raw)),
    ensures
        get_outcome::<T>(docs, intruder, raw, missing) == Err::<T::V, Failure>(
            Failure::NotFound(missing),
        ),
        update_outcome::<T, P>(docs, intruder, raw, patch, now, missing) == Err::<T::V, Failure>(
            Failure::NotFound(missing),
        ),
        delete_outcome::<T>(docs, intruder, raw, done, missing) == Err::<Seq<char>, Failure>(
            Failure::NotFound(missing),
        ),
        after_update::<T, P>(docs, intruder, raw, patch, now) == docs,
        after_delete::<T>(docs, intruder, raw) == docs,
{
    let f = Filter { id: parsed(raw), user_id: intruder };
    assert forall|j: int| 0 <= j < docs.len() implies !selects::<T>(f)(#[trigger] docs[j]) by {
        if admits::<T>(f, docs[j]) {
            assert(T::id_of(docs[j]) == T::id_of(docs[k]));
            assert(j == k);
        }
    }
    lemma_first_none(docs, selects::<T>(f));
}

/// A partial update reaches one record at most, the one that the
/// caller named and owns: every other record, of the caller or of
/// anyone else, is afterwards what it was, and no record is added or
/// lost. The record that was updated is what `get` returns afterwards.
pub proof fn lemma_update_reaches_one_record<T: Owned, P: Patch<T>>(
    docs: Seq<T::V>,
    owner: ObjectId,
    raw: Seq<char>,
    patch: P,
    now: Timestamp,
    missing: Seq<char>,
)
    requires
        distinct_ids::<T>(docs),
    ensures
        ({
            let after = after_update::<T, P>(docs, owner, raw, patch, now);
            &&& after.len() == docs.len()
            &&& distinct_ids::<T>(after)
            &&& forall|j: int|
                0 <= j < docs.len() ==> #[trigger] after[j] == docs[j] || {
                    &&& T::owner_of(docs[j]) == owner
                    &&& T::id_of(docs[j]) == Some(parsed(raw))
                    &&& after[j] == patch.applied(docs[j], now)
                }
            &&& update_outcome::<T, P>(docs, owner, raw, patch, now, missing) is Ok
                ==> get_outcome::<T>(after, owner, raw, missing) == update_outcome::<T, P>(
                docs,
                owner,
                raw,
                patch,
                now,
                missing,
            )
        }),
{
    let after = after_update::<T, P>(docs, owner, raw, patch, now);
    if well_formed(raw) {
        let f = Filter { id: parsed(raw), user_id: owner };
        if slot::<T>(docs, f) is Some {
            let i = slot::<T>(docs, f).unwrap();
            lemma_first_some(docs, selects::<T>(f));
            patch.lemma_applied_keeps_identity(docs[i], now);
            assert forall|a: int, b: int| 0 <= a < b < after.len() implies T::id_of(
                #[trigger] after[a],
            ) != T::id_of(#[trigger] after[b]) by {
                assert(T::id_of(after[a]) == T::id_of(docs[a]));
                assert(T::id_of(after[b]) == T::id_of(docs[b]));
            }
            assert forall|a: int| 0 <= a < after.len() implies (#[trigger] T::id_of(
                after[a],
            )) is Some by {
                assert(T::id_of(after[a]) == T::id_of(docs[a]));
            }
            lemma_slot_of::<T>(after, f, i);
        }
    }
}

/// Deleting what the caller cannot see (a record that does not exist,
/// or one of another owner) fails and leaves the collection as it is.
pub proof fn lemma_delete_of_unseen_changes_nothing<T: Owned>(
    docs: Seq<T::V>,
    owner: ObjectId,
    raw: Seq<char>,
    done: Seq<char>,
    missing: Seq<char>,
)
    requires
        get_outcome::<T>(docs, owner, raw, missing) is Err,
    ensures
        delete_outcome::<T>(docs, owner, raw, done, missing) == Err::<Seq<char>, Failure>(
            get_outcome::<T>(docs, owner, raw, missing)->Err_0,
        ),
        well_formed(raw) ==> delete_outcome::<T>(docs, owner, raw, done, missing) == Err::<
            Seq<char>,
            Failure,
        >(Failure::NotFound(missing)),
        after_delete::<T>(docs, owner, raw) == docs,
{
}

/// A delete removes one record at most, and the record it removed is
/// gone: a second delete of the same record fails and changes nothing,
/// and so does a get.
pub proof fn lemma_second_delete_fails<T: Owned>(
    docs: Seq<T::V>,
    owner: ObjectId,
    raw: Seq<char>,
    done: Seq<char>,
    missing: Seq<char>,
)
    requires
        distinct_ids::<T>(docs),
        well_formed(raw),
    ensures
        ({
            let after = after_delete::<T>(docs, owner, raw);
            &&& distinct_ids::<T>(after)
            &&& docs.len() - 1 <= after.len() <= docs.len()
            &&& delete_outcome::<T>(docs, owner, raw, done, missing) is Ok ==> after.len()
                == docs.len() - 1
            &&& delete_outcome::<T>(after, owner, raw, done, missing) == Err::<Seq<char>, Failure>(
                Failure::NotFound(missing),
            )
            &&& get_outcome::<T>(after, owner, raw, missing) == Err::<T::V, Failure>(
                Failure::NotFound(missing),
            )
            &&& after_delete::<T>(after, owner, raw) == after
        }),
{
    let f = Filter { id: parsed(raw), user_id: owner };
    let after = after_delete::<T>(docs, owner, raw);
    if slot::<T>(docs, f) is Some {
        let i = slot::<T>(docs, f).unwrap();
        lemma_first_some(docs, selects::<T>(f));
        assert forall|j: int| 0 <= j < after.len() implies !selects::<T>(f)(#[trigger] after[j]) by {
            let j0 = if j < i {
                j
            } else {
                j + 1
            };
            assert(after[j] == docs[j0]);
            if admits::<T>(f, docs[j0]) {
                assert(T::id_of(docs[j0]) == T::id_of(docs[i]));
            }
        }
        lemma_first_none(after, selects::<T>(f));
        assert forall|a: int, b: int| 0 <= a < b < after.len() implies T::id_of(
            #[trigger] after[a],
        ) != T::id_of(#[trigger] after[b]) by {
            let a0 = if a < i {
                a
            } else {
                a + 1
            };
            let b0 = if b < i {
                b
            } else {
                b + 1
            };
            assert(after[a] == docs[a0]);
            assert(after[b] == docs[b0]);
        }
        assert forall|a: int| 0 <= a < after.len() implies (#[trigger] T::id_of(after[a])) is Some by {
            let a0 = if a < i {
                a
            } else {
                a + 1
            };
            assert(after[a] == docs[a0]);
        }
    }
}

/// A record that was created is found by its owner under the
/// identifier it was given, and by no other owner.
pub proof fn lemma_created_is_found_by_its_owner_alone<T: Owned>(
    docs: Seq<T::V>,
    next: ObjectId,
    doc: T::V,
    other: ObjectId,
    missing: Seq<char>,
)
    requires
        distinct_ids::<T>(docs),
        unused::<T>(docs, next),
    ensures
        ({
            let (after, answer) = create_outcome::<T>(docs, next, false, doc);
            &&& distinct_ids::<T>(after)
            &&& answer == Ok::<T::V, Failure>(T::with_id(doc, next))
            &&& T::id_of(T::with_id(doc, next)) == Some(next)
            &&& T::owner_of(T::with_id(doc, next)) == T::owner_of(doc)
            &&& get_outcome::<T>(after, T::owner_of(doc), next.hex(), missing) == answer
            &&& other != T::owner_of(doc) ==> get_outcome::<T>(after, other, next.hex(), missing)
                == Err::<T::V, Failure>(Failure::NotFound(missing))
        }),
{
    let stored = T::with_id(doc, next);
    let after = docs.push(stored);
    T::lemma_with_id(doc, next);
    T::lemma_with_id_keeps_owner(doc, next);
    lemma_hex_round_trip(next);
    assert forall|a: int, b: int| 0 <= a < b < after.len() implies T::id_of(#[trigger] after[a])
        != T::id_of(#[trigger] after[b]) by {
        if b < docs.len() {
            assert(after[a] == docs[a] && after[b] == docs[b]);
        } else {
            assert(after[a] == docs[a]);
        }
    }
    assert forall|a: int| 0 <= a < after.len() implies (#[trigger] T::id_of(after[a])) is Some by {
        if a < docs.len() {
            assert(after[a] == docs[a]);
        }
    }
    let k = docs.len() as int;
    lemma_slot_of::<T>(after, Filter { id: next, user_id: T::owner_of(doc) }, k);
    if other != T::owner_of(doc) {
        let f = Filter { id: next, user_id: other };
        assert forall|j: int| 0 <= j < after.len() implies !selects::<T>(f)(#[trigger] after[j]) by {
            if j < docs.len() {
                assert(after[j] == docs[j]);
            }
        }
        lemma_first_none(after, selects::<T>(f));
    }
}

/// What one owner lists are records of that owner, and it does not
/// change by what another owner creates, updates or deletes.
pub proof fn lemma_list_is_the_owners_alone<T: Owned, P: Patch<T>>(
    docs: Seq<T::V>,
    owner: ObjectId,
    other: ObjectId,
    raw: Seq<char>,
    patch: P,
    now: Timestamp,
    next: ObjectId,
    full: bool,
    doc: T::V,
)
    requires
        owner != other,
        T::owner_of(doc) == other,
    ensures
        owned_by::<T>(create_outcome::<T>(docs, next, full, doc).0, owner) == owned_by::<T>(
            docs,
            owner,
        ),
        forall|i: int|
            0 <= i < owned_by::<T>(docs, owner).len() ==> T::owner_of(
                #[trigger] owned_by::<T>(docs, owner)[i],
            ) == owner,
        owned_by::<T>(after_update::<T, P>(docs, other, raw, patch, now), owner) == owned_by::<T>(
            docs,
            owner,
        ),
        owned_by::<T>(after_delete::<T>(docs, other, raw), owner) == owned_by::<T>(docs, owner),
{
    let mine = owned::<T>(owner);
    if !full {
        reveal(Seq::filter);
        T::lemma_with_id_keeps_owner(doc, next);
        assert(docs.push(T::with_id(doc, next)).drop_last() =~= docs);
    }
    assert forall|i: int| 0 <= i < owned_by::<T>(docs, owner).len() implies T::owner_of(
        #[trigger] owned_by::<T>(docs, owner)[i],
    ) == owner by {
        docs.lemma_filter_pred(mine, i);
    }
    if well_formed(raw) {
        let f = Filter { id: parsed(raw), user_id: other };
        if slot::<T>(docs, f) is Some {
            let i = slot::<T>(docs, f).unwrap();
            lemma_first_some(docs, selects::<T>(f));
            patch.lemma_applied_keeps_identity(docs[i], now);
            lemma_filter_skips_update(docs, mine, i, patch.applied(docs[i], now));
            lemma_filter_skips_remove(docs, mine, i);
        }
    }
}

} // verus!
