//! The document store that the repository operations rely on: collections
//! of records that are found, revised and removed only through a filter
//! that names both the record and its owner.

use vstd::prelude::*;

use crate::error::{AppError, Failure};
use crate::ident::ObjectId;
use crate::values::Timestamp;

verus! {

/// A record that a collection can hold. Contracts speak of its view.
pub trait Record: View + Sized {
    /// The identifier of the record, once it has been stored.
    spec fn id_of(v: Self::V) -> Option<ObjectId>;

    /// The same record under the identifier `id`.
    spec fn with_id(v: Self::V, id: ObjectId) -> Self::V;

    proof fn lemma_with_id(v: Self::V, id: ObjectId)
        ensures
            Self::id_of(Self::with_id(v, id)) == Some(id),
    ;

    fn key(&self) -> (k: Option<ObjectId>)
        ensures
            k == Self::id_of(self@),
    ;

    fn set_key(&mut self, id: ObjectId)
        ensures
            final(self)@ == Self::with_id(old(self)@, id),
    ;

    fn duplicate(&self) -> (copy: Self)
        ensures
            copy@ == self@,
    ;
}

/// A record that belongs to exactly one owner, for as long as it exists.
pub trait Owned: Record {
    spec fn owner_of(v: Self::V) -> ObjectId;

    proof fn lemma_with_id_keeps_owner(v: Self::V, id: ObjectId)
        ensures
            Self::owner_of(Self::with_id(v, id)) == Self::owner_of(v),
    ;

    fn owner_key(&self) -> (k: ObjectId)
        ensures
            k == Self::owner_of(self@),
    ;
}

/// A record that is also found by a text of its own, as an account is by
/// its address.
pub trait Named: Record {
    spec fn name_of(v: Self::V) -> Seq<char>;

    fn is_named(&self, name: &String) -> (b: bool)
        ensures
            b == (Self::name_of(self@) == name@),
    ;
}

/// A set of changes to a record of type `T`, made at the time `now`.
pub trait Patch<T: Owned>: Sized {
    /// The record after the changes.
    spec fn applied(self, v: T::V, now: Timestamp) -> T::V;

    /// No change reaches the identifier or the owner.
    proof fn lemma_applied_keeps_identity(self, v: T::V, now: Timestamp)
        ensures
            T::id_of(self.applied(v, now)) == T::id_of(v),
            T::owner_of(self.applied(v, now)) == T::owner_of(v),
    ;

    fn apply(self, doc: &mut T, now: Timestamp)
        ensures
            final(doc)@ == self.applied(old(doc)@, now),
    ;
}

/// One field of a record of type `T` set to a new value: what a partial
/// update consists of. A field that a request does not hold is no
/// change at all, so it keeps what it has.
pub trait Change<T: Owned>: Sized {
    /// The record with the field set.
    spec fn put(self, v: T::V) -> T::V;

    /// No field that can be set is the identifier or the owner.
    proof fn lemma_put_keeps_identity(self, v: T::V)
        ensures
            T::id_of(self.put(v)) == T::id_of(v),
            T::owner_of(self.put(v)) == T::owner_of(v),
    ;

    fn set(&self, doc: &mut T)
        ensures
            final(doc)@ == self.put(old(doc)@),
    ;
}

/// The record after a list of changes, made one after the other.
pub open spec fn put_all<T: Owned, C: Change<T>>(changes: Seq<C>, v: T::V) -> T::V
    decreases changes.len(),
{
    if changes.len() == 0 {
        v
    } else {
        changes.last().put(put_all::<T, C>(changes.drop_last(), v))
    }
}

/// One more change is made after the others.
pub proof fn lemma_put_one_more<T: Owned, C: Change<T>>(changes: Seq<C>, next: C, v: T::V)
    ensures
        put_all::<T, C>(changes.push(next), v) == next.put(put_all::<T, C>(changes, v)),
{
    assert(changes.push(next).drop_last() =~= changes);
}

/// A list that ends in at most one more change makes that change, if
/// there is one, after the others.
pub proof fn lemma_put_part<T: Owned, C: Change<T>>(changes: Seq<C>, part: Seq<C>, v: T::V)
    requires
        part.len() <= 1,
    ensures
        put_all::<T, C>(changes + part, v) == if part.len() == 1 {
            part[0].put(put_all::<T, C>(changes, v))
        } else {
            put_all::<T, C>(changes, v)
        },
{
    if part.len() == 1 {
        assert(changes + part =~= changes.push(part[0]));
        lemma_put_one_more::<T, C>(changes, part[0], v);
    } else {
        assert(changes + part =~= changes);
    }
}

/// No list of changes reaches the identifier or the owner.
pub proof fn lemma_put_all_keeps_identity<T: Owned, C: Change<T>>(changes: Seq<C>, v: T::V)
    ensures
        T::id_of(put_all::<T, C>(changes, v)) == T::id_of(v),
        T::owner_of(put_all::<T, C>(changes, v)) == T::owner_of(v),
    decreases changes.len(),
{
    if changes.len() > 0 {
        lemma_put_all_keeps_identity::<T, C>(changes.drop_last(), v);
        changes.last().lemma_put_keeps_identity(put_all::<T, C>(changes.drop_last(), v));
    }
}

/// Makes the changes to a record, one after the other.
pub fn set_all<T: Owned, C: Change<T>>(changes: &Vec<C>, doc: &mut T)
    ensures
        final(doc)@ == put_all::<T, C>(changes@, old(doc)@),
{
    let mut i: usize = 0;
    proof {
        assert(changes@.take(0) =~= Seq::<C>::empty());
    }
    while i < changes.len()
        invariant
            i <= changes.len(),
            doc@ == put_all::<T, C>(changes@.take(i as int), old(doc)@),
        decreases changes.len() - i,
    {
        changes[i].set(doc);
        proof {
            lemma_put_one_more::<T, C>(changes@.take(i as int), changes@[i as int], old(doc)@);
            assert(changes@.take(i as int).push(changes@[i as int]) =~= changes@.take(i + 1));
        }
        i += 1;
    }
    proof {
        assert(changes@.take(i as int) =~= changes@);
    }
}

/// Names one record of one owner. An identifier alone never selects a record.
#[derive(Clone, Copy, Debug, PartialEq, Eq, Structural)]
pub struct Filter {
    pub id: ObjectId,
    pub user_id: ObjectId,
}

/// The filter selects the record: identifier and owner both agree.
pub open spec fn admits<T: Owned>(f: Filter, v: T::V) -> bool {
    T::id_of(v) == Some(f.id) && T::owner_of(v) == f.user_id
}

/// The filter as a predicate on records.
pub open spec fn selects<T: Owned>(f: Filter) -> spec_fn(T::V) -> bool {
    |v: T::V| admits::<T>(f, v)
}

/// "Belongs to `owner`" as a predicate on records.
pub open spec fn owned<T: Owned>(owner: ObjectId) -> spec_fn(T::V) -> bool {
    |v: T::V| T::owner_of(v) == owner
}

/// "Is called `name`" as a predicate on records.
pub open spec fn called<T: Named>(name: Seq<char>) -> spec_fn(T::V) -> bool {
    |v: T::V| T::name_of(v) == name
}

/// `i` is the first place in `docs` at which `pred` holds.
pub open spec fn is_first<V>(docs: Seq<V>, pred: spec_fn(V) -> bool, i: int) -> bool {
    &&& 0 <= i < docs.len()
    &&& pred(docs[i])
    &&& forall|j: int| 0 <= j < i ==> !pred(#[trigger] docs[j])
}

/// The first place in `docs` at which `pred` holds, if there is one.
pub open spec fn first<V>(docs: Seq<V>, pred: spec_fn(V) -> bool) -> Option<int> {
    if exists|i: int| is_first(docs, pred, i) {
        Some(choose|i: int| is_first(docs, pred, i))
    } else {
        None
    }
}

/// The place of the first record that the filter selects, if there is one.
pub open spec fn slot<T: Owned>(docs: Seq<T::V>, f: Filter) -> Option<int> {
    first(docs, selects::<T>(f))
}

/// The record that the filter selects, if there is one.
pub open spec fn found<T: Owned>(docs: Seq<T::V>, f: Filter) -> Option<T::V> {
    match slot::<T>(docs, f) {
        Some(i) => Some(docs[i]),
        None => None,
    }
}

/// The first record called `name`, if there is one.
pub open spec fn named<T: Named>(docs: Seq<T::V>, name: Seq<char>) -> Option<T::V> {
    match first(docs, called::<T>(name)) {
        Some(i) => Some(docs[i]),
        None => None,
    }
}

/// The collection after the selected record, if any, took the changes.
pub open spec fn revised<T: Owned, P: Patch<T>>(docs: Seq<T::V>, f: Filter, patch: P, now: Timestamp) -> Seq<
    T::V,
> {
    match slot::<T>(docs, f) {
        Some(i) => docs.update(i, patch.applied(docs[i], now)),
        None => docs,
    }
}

/// The collection after the selected record, if any, was removed.
pub open spec fn without<T: Owned>(docs: Seq<T::V>, f: Filter) -> Seq<T::V> {
    match slot::<T>(docs, f) {
        Some(i) => docs.remove(i),
        None => docs,
    }
}

/// The records of one owner, in the order of the collection.
pub open spec fn owned_by<T: Owned>(docs: Seq<T::V>, owner: ObjectId) -> Seq<T::V> {
    docs.filter(owned::<T>(owner))
}

/// Every record has an identifier, and no two share one.
pub open spec fn distinct_ids<T: Record>(docs: Seq<T::V>) -> bool {
    &&& forall|i: int| 0 <= i < docs.len() ==> (#[trigger] T::id_of(docs[i])) is Some
    &&& forall|i: int, j: int|
        0 <= i < j < docs.len() ==> T::id_of(#[trigger] docs[i]) != T::id_of(#[trigger] docs[j])
}

/// The identifier is not in use in the collection.
pub open spec fn unused<T: Record>(docs: Seq<T::V>, id: ObjectId) -> bool {
    forall|i: int| 0 <= i < docs.len() ==> (#[trigger] T::id_of(docs[i])) != Some(id)
}

/// The views of a sequence of records.
pub open spec fn views<T: View>(docs: Seq<T>) -> Seq<T::V> {
    docs.map_values(|d: T| d@)
}

/// Only one place can be the first.
pub proof fn lemma_first_is<V>(docs: Seq<V>, pred: spec_fn(V) -> bool, i: int)
    requires
        is_first(docs, pred, i),
    ensures
        first(docs, pred) == Some(i),
{
    let j = choose|j: int| is_first(docs, pred, j);
    if j < i {
        assert(!pred(docs[j]));
    } else if i < j {
        assert(!pred(docs[i]));
    }
}

/// Where `pred` holds nowhere, there is no first place.
pub proof fn lemma_first_none<V>(docs: Seq<V>, pred: spec_fn(V) -> bool)
    requires
        forall|j: int| 0 <= j < docs.len() ==> !pred(#[trigger] docs[j]),
    ensures
        first(docs, pred) is None,
{
}

/// Where `pred` holds somewhere, there is a first place, and it comes
/// no later.
pub proof fn lemma_first_exists<V>(docs: Seq<V>, pred: spec_fn(V) -> bool, j: int)
    requires
        0 <= j < docs.len(),
        pred(docs[j]),
    ensures
        first(docs, pred) is Some,
        first(docs, pred).unwrap() <= j,
    decreases j,
{
    if exists|k: int| 0 <= k < j && pred(#[trigger] docs[k]) {
        let k = choose|k: int| 0 <= k < j && pred(#[trigger] docs[k]);
        lemma_first_exists(docs, pred, k);
    } else {
        assert(is_first(docs, pred, j));
        lemma_first_is(docs, pred, j);
    }
}

/// What `first` names is a first place.
pub proof fn lemma_first_some<V>(docs: Seq<V>, pred: spec_fn(V) -> bool)
    requires
        first(docs, pred) is Some,
    ensures
        is_first(docs, pred, first(docs, pred).unwrap()),
{
}

/// A place whose record does not satisfy `pred`, before or after it is
/// replaced, does not count for the records that satisfy `pred`.
pub proof fn lemma_filter_skips_update<V>(docs: Seq<V>, pred: spec_fn(V) -> bool, i: int, v: V)
    requires
        0 <= i < docs.len(),
        !pred(docs[i]),
        !pred(v),
    ensures
        docs.update(i, v).filter(pred) == docs.filter(pred),
    decreases docs.len(),
{
    reveal(Seq::filter);
    let after = docs.update(i, v);
    if i == docs.len() - 1 {
        assert(after.drop_last() =~= docs.drop_last());
    } else {
        lemma_filter_skips_update(docs.drop_last(), pred, i, v);
        assert(after.drop_last() =~= docs.drop_last().update(i, v));
        assert(after.last() == docs.last());
    }
}

/// Removing a record that does not satisfy `pred` leaves the records
/// that satisfy `pred` as they are.
pub proof fn lemma_filter_skips_remove<V>(docs: Seq<V>, pred: spec_fn(V) -> bool, i: int)
    requires
        0 <= i < docs.len(),
        !pred(docs[i]),
    ensures
        docs.remove(i).filter(pred) == docs.filter(pred),
    decreases docs.len(),
{
    reveal(Seq::filter);
    let after = docs.remove(i);
    if i == docs.len() - 1 {
        assert(after =~= docs.drop_last());
    } else {
        lemma_filter_skips_remove(docs.drop_last(), pred, i);
        assert(after.drop_last() =~= docs.drop_last().remove(i));
        assert(after.last() == docs.last());
    }
}

/// A collection of records, each under an identifier of its own.
pub struct Collection<T: Record> {
    docs: Vec<T>,
    next: u64,
}

impl<T: Record> View for Collection<T> {
    type V = Seq<T::V>;

    closed spec fn view(&self) -> Seq<T::V> {
        views(self.docs@)
    }
}

impl<T: Record> Collection<T> {
    #[verifier::type_invariant]
    spec fn inv(self) -> bool {
        &&& distinct_ids::<T>(views(self.docs@))
        &&& forall|i: int|
            0 <= i < self.docs@.len() ==> {
                let id = #[trigger] T::id_of(self.docs@[i]@);
                id is Some && id.unwrap().hi == 0 && id.unwrap().lo < self.next
            }
    }

    /// The identifier that the next record will get.
    pub closed spec fn next_id(&self) -> ObjectId {
        ObjectId { hi: 0, lo: self.next }
    }

    /// No identifier is left to give out.
    pub closed spec fn exhausted(&self) -> bool {
        self.next == u64::MAX
    }

    /// The identifier that follows `id` in the order in which a
    /// collection gives identifiers out.
    pub open spec fn following(id: ObjectId) -> ObjectId {
        ObjectId { hi: id.hi, lo: (id.lo + 1) as u64 }
    }

    /// The collection is as it is made: it holds no record, and the
    /// first record that it stores gets the identifier zero.
    pub open spec fn is_new(&self) -> bool {
        &&& self@ == Seq::<T::V>::empty()
        &&& self.next_id() == (ObjectId { hi: 0, lo: 0 })
        &&& !self.exhausted()
    }

    /// A collection without a record.
    pub fn new() -> (c: Self)
        ensures
            c.is_new(),
    {
        let c = Collection { docs: Vec::new(), next: 0 };
        assert(c@ =~= Seq::<T::V>::empty());
        c
    }

    /// The number of records. Every record in a collection has an
    /// identifier, no two share one, and none has the identifier that
    /// the next record will get.
    pub fn len(&self) -> (n: usize)
        ensures
            n == self@.len(),
            distinct_ids::<T>(self@),
            unused::<T>(self@, self.next_id()),
    {
        proof {
            use_type_invariant(self);
            assert forall|i: int| 0 <= i < self@.len() implies (#[trigger] T::id_of(self@[i]))
                != Some(self.next_id()) by {
                assert(T::id_of(self.docs@[i]@).unwrap().lo < self.next);
            }
        }
        self.docs.len()
    }

    /// Stores the record under a fresh identifier and returns the identifier.
    pub fn insert_one(&mut self, doc: T) -> (r: Result<ObjectId, AppError>)
        ensures
            distinct_ids::<T>(old(self)@),
            distinct_ids::<T>(final(self)@),
            r is Ok <==> !old(self).exhausted(),
            r matches Ok(id) ==> {
                &&& id == old(self).next_id()
                &&& unused::<T>(old(self)@, id)
                &&& final(self)@ == old(self)@.push(T::with_id(doc@, id))
                &&& final(self).next_id() == Self::following(id)
            },
            r matches Err(e) ==> {
                &&& e@ == Failure::InternalError("No identifier left"@)
                &&& final(self)@ == old(self)@
                &&& final(self).next_id() == old(self).next_id()
            },
    {
        proof {
            use_type_invariant(&*self);
        }
        if self.next == u64::MAX {
            return Err(AppError::internal("No identifier left"));
        }
        let id = ObjectId { hi: 0, lo: self.next };
        let mut stored = doc;
        stored.set_key(id);
        proof {
            T::lemma_with_id(doc@, id);
        }
        let ghost prior = self.docs@;
        let mut docs: Vec<T> = Vec::new();
        core::mem::swap(&mut self.docs, &mut docs);
        docs.push(stored);
        self.next = self.next + 1;
        proof {
            let vs = views(docs@);
            assert forall|i: int| 0 <= i < docs@.len() implies {
                let k = #[trigger] T::id_of(docs@[i]@);
                k is Some && k.unwrap().hi == 0 && k.unwrap().lo < self.next
            } by {
                if i < prior.len() {
                    assert(docs@[i] == prior[i]);
                }
            }
            assert forall|i: int, j: int| 0 <= i < j < vs.len() implies T::id_of(
                #[trigger] vs[i],
            ) != T::id_of(#[trigger] vs[j]) by {
                assert(T::id_of(docs@[i]@) is Some);
                assert(T::id_of(docs@[j]@) is Some);
                if j < prior.len() {
                    assert(views(prior)[i] == vs[i]);
                    assert(views(prior)[j] == vs[j]);
                }
            }
        }
        self.docs = docs;
        proof {
            assert(self@ =~= old(self)@.push(T::with_id(doc@, id)));
            assert forall|i: int| 0 <= i < old(self)@.len() implies (#[trigger] T::id_of(
                old(self)@[i],
            )) != Some(id) by {
                assert(T::id_of(old(self).docs@[i]@).unwrap().lo < id.lo);
            }
        }
        Ok(id)
    }
}

impl<T: Owned> Collection<T> {
    fn position(&self, f: &Filter) -> (r: Option<usize>)
        ensures
            match r {
                Some(i) => i < self.docs@.len() && slot::<T>(self@, *f) == Some(i as int),
                None => slot::<T>(self@, *f) is None,
            },
    {
        let mut i: usize = 0;
        while i < self.docs.len()
            invariant
                i <= self.docs@.len(),
                forall|j: int| 0 <= j < i ==> !selects::<T>(*f)(#[trigger] self@[j]),
            decreases self.docs@.len() - i,
        {
            let doc = &self.docs[i];
            let same_id = match doc.key() {
                Some(k) => k == f.id,
                None => false,
            };
            if same_id && doc.owner_key() == f.user_id {
                proof {
                    assert(self@[i as int] == doc@);
                    lemma_first_is(self@, selects::<T>(*f), i as int);
                }
                return Some(i);
            }
            proof {
                assert(self@[i as int] == doc@);
            }
            i += 1;
        }
        proof {
            lemma_first_none(self@, selects::<T>(*f));
        }
        None
    }

    /// All records of `owner`, in the order of the collection.
    pub fn find(&self, owner: ObjectId) -> (r: Vec<T>)
        ensures
            views(r@) == owned_by::<T>(self@, owner),
    {
        let mut out: Vec<T> = Vec::new();
        let mut i: usize = 0;
        proof {
            reveal(Seq::filter);
            assert(self@.take(0) =~= Seq::<T::V>::empty());
            assert(views(out@) =~= self@.take(0).filter(owned::<T>(owner)));
        }
        while i < self.docs.len()
            invariant
                i <= self.docs@.len(),
                views(out@) == self@.take(i as int).filter(owned::<T>(owner)),
            decreases self.docs@.len() - i,
        {
            let doc = &self.docs[i];
            let ghost before = views(out@);
            proof {
                reveal(Seq::filter);
                assert(self@.take(i + 1).drop_last() =~= self@.take(i as int));
                assert(self@.take(i + 1).last() == doc@);
            }
            if doc.owner_key() == owner {
                out.push(doc.duplicate());
                proof {
                    assert(views(out@) =~= before.push(doc@));
                }
            }
            i += 1;
        }
        proof {
            assert(self@.take(i as int) =~= self@);
        }
        out
    }

    /// How many records `owner` has.
    pub fn count_documents(&self, owner: ObjectId) -> (n: u64)
        ensures
            n == owned_by::<T>(self@, owner).len(),
    {
        let mut n: u64 = 0;
        let mut i: usize = 0;
        proof {
            reveal(Seq::filter);
            assert(self@.take(0) =~= Seq::<T::V>::empty());
        }
        while i < self.docs.len()
            invariant
                i <= self.docs@.len(),
                n <= i,
                n == self@.take(i as int).filter(owned::<T>(owner)).len(),
            decreases self.docs@.len() - i,
        {
            let doc = &self.docs[i];
            proof {
                reveal(Seq::filter);
                assert(self@.take(i + 1).drop_last() =~= self@.take(i as int));
                assert(self@.take(i + 1).last() == doc@);
            }
            if doc.owner_key() == owner {
                n += 1;
            }
            i += 1;
        }
        proof {
            assert(self@.take(i as int) =~= self@);
        }
        n
    }

    /// The record that the filter selects, if there is one.
    pub fn find_one(&self, f: &Filter) -> (r: Option<T>)
        ensures
            distinct_ids::<T>(self@),
            match r {
                Some(doc) => found::<T>(self@, *f) == Some(doc@),
                None => found::<T>(self@, *f) is None,
            },
    {
        proof {
            use_type_invariant(self);
        }
        match self.position(f) {
            Some(i) => Some(self.docs[i].duplicate()),
            None => None,
        }
    }

    /// Applies the changes to the record that the filter selects and
    /// returns the record as it is afterwards. Without such a record
    /// nothing changes.
    pub fn find_one_and_update<P: Patch<T>>(&mut self, f: &Filter, patch: P, now: Timestamp) -> (r: Option<T>)
        ensures
            distinct_ids::<T>(old(self)@),
            distinct_ids::<T>(final(self)@),
            final(self)@ == revised::<T, P>(old(self)@, *f, patch, now),
            final(self).next_id() == old(self).next_id(),
            match r {
                Some(doc) => found::<T>(old(self)@, *f) matches Some(v) && doc@ == patch.applied(
                    v,
                    now,
                ),
                None => found::<T>(old(self)@, *f) is None,
            },
    {
        proof {
            use_type_invariant(&*self);
        }
        match self.position(f) {
            None => None,
            Some(i) => {
                let ghost prior = self.docs@;
                let mut doc = self.docs[i].duplicate();
                patch.apply(&mut doc, now);
                let copy = doc.duplicate();
                let mut docs: Vec<T> = Vec::new();
                core::mem::swap(&mut self.docs, &mut docs);
                docs.set(i, doc);
                proof {
                    patch.lemma_applied_keeps_identity(prior[i as int]@, now);
                    let vs = views(docs@);
                    assert forall|k: int| 0 <= k < docs@.len() implies {
                        let id = #[trigger] T::id_of(docs@[k]@);
                        id is Some && id.unwrap().hi == 0 && id.unwrap().lo < self.next
                    } by {
                        if k != i {
                            assert(docs@[k] == prior[k]);
                        }
                    }
                    assert forall|a: int, b: int| 0 <= a < b < vs.len() implies T::id_of(
                        #[trigger] vs[a],
                    ) != T::id_of(#[trigger] vs[b]) by {
                        assert(T::id_of(vs[a]) == T::id_of(views(prior)[a]));
                        assert(T::id_of(vs[b]) == T::id_of(views(prior)[b]));
                    }
                }
                self.docs = docs;
                proof {
                    assert(self@ =~= old(self)@.update(
                        i as int,
                        patch.applied(old(self)@[i as int], now),
                    ));
                }
                Some(copy)
            },
        }
    }

    /// Removes the record that the filter selects and says how many
    /// records were removed: one or none.
    pub fn delete_one(&mut self, f: &Filter) -> (n: u64)
        ensures
            distinct_ids::<T>(old(self)@),
            distinct_ids::<T>(final(self)@),
            final(self)@ == without::<T>(old(self)@, *f),
            final(self).next_id() == old(self).next_id(),
            n == if found::<T>(old(self)@, *f) is Some {
                1u64
            } else {
                0u64
            },
    {
        proof {
            use_type_invariant(&*self);
        }
        match self.position(f) {
            None => 0,
            Some(i) => {
                let ghost prior = self.docs@;
                let mut docs: Vec<T> = Vec::new();
                core::mem::swap(&mut self.docs, &mut docs);
                let _ = docs.remove(i);
                proof {
                    let vs = views(docs@);
                    assert forall|k: int| 0 <= k < docs@.len() implies {
                        let id = #[trigger] T::id_of(docs@[k]@);
                        id is Some && id.unwrap().hi == 0 && id.unwrap().lo < self.next
                    } by {
                        if k < i {
                            assert(docs@[k] == prior[k]);
                        } else {
                            assert(docs@[k] == prior[k + 1]);
                        }
                    }
                    assert forall|a: int, b: int| 0 <= a < b < vs.len() implies T::id_of(
                        #[trigger] vs[a],
                    ) != T::id_of(#[trigger] vs[b]) by {
                        let a0 = if a < i { a } else { a + 1 };
                        let b0 = if b < i { b } else { b + 1 };
                        assert(vs[a] == views(prior)[a0]);
                        assert(vs[b] == views(prior)[b0]);
                    }
                }
                self.docs = docs;
                proof {
                    assert(self@ =~= old(self)@.remove(i as int));
                }
                1
            },
        }
    }
}

impl<T: Named> Collection<T> {
    /// The first record called `name`, if there is one.
    pub fn find_by_name(&self, name: &String) -> (r: Option<T>)
        ensures
            distinct_ids::<T>(self@),
            match r {
                Some(doc) => named::<T>(self@, name@) == Some(doc@),
                None => named::<T>(self@, name@) is None,
            },
    {
        proof {
            use_type_invariant(self);
        }
        let mut i: usize = 0;
        while i < self.docs.len()
            invariant
                i <= self.docs@.len(),
                distinct_ids::<T>(self@),
                forall|j: int| 0 <= j < i ==> !called::<T>(name@)(#[trigger] self@[j]),
            decreases self.docs@.len() - i,
        {
            let doc = &self.docs[i];
            proof {
                assert(self@[i as int] == doc@);
            }
            if doc.is_named(name) {
                proof {
                    lemma_first_is(self@, called::<T>(name@), i as int);
                }
                return Some(doc.duplicate());
            }
            i += 1;
        }
        proof {
            lemma_first_none(self@, called::<T>(name@));
        }
        None
    }
}

} // verus!
