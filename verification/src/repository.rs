//! The storage-agnostic repository contract.
//!
//! A repository persists one entity kind under a 128-bit id and exposes the
//! capability set `insert` / `find` / `update`. The contract is stated over
//! the entities' mathematical values: each implementation says which lookups
//! it answers, which inserts and updates it accepts, and exactly how an
//! entity reads back afterwards — so a caller depends on nothing beyond this
//! interface.

use crate::error::{StoreErrorKind, VideoRepositoryError};
use vstd::prelude::*;

verus! {

pub trait Repository<T: View>: Sized {
    /// The store invariant every operation preserves.
    spec fn inv(&self) -> bool;

    /// The id under which an entity is persisted.
    spec fn id_of(item: T::V) -> u128;

    /// What the store demands of an entity handed to `insert` or `update`.
    spec fn item_wf(item: T::V) -> bool;

    /// The fully materialized entity `find` answers for `id`, if any.
    spec fn lookup(&self, id: u128) -> Option<T::V>;

    /// Whether the store accepts `item` as a brand-new entity.
    spec fn may_insert(&self, item: T::V) -> bool;

    /// The error `insert` reports when it rejects `item`.
    spec fn insert_err(&self, item: T::V) -> VideoRepositoryError;

    /// How `item` reads back right after a successful insert.
    spec fn stored_view(&self, item: T::V) -> T::V;

    /// Whether the store accepts `item` as an update of a persisted entity.
    spec fn may_update(&self, item: T::V) -> bool;

    /// The error `update` reports when it rejects `item`.
    spec fn update_err(&self, item: T::V) -> VideoRepositoryError;

    /// How the entity under `item`'s id reads back right after a successful
    /// update.
    spec fn updated_view(&self, item: T::V) -> T::V;

    /// How a successful insert moves the whole store, stated over the
    /// implementation's model: `self` before, `post` after.
    spec fn insert_frame(&self, post: Self, item: T::V) -> bool;

    /// How a successful update moves the whole store, stated over the
    /// implementation's model: `self` before, `post` after.
    spec fn update_frame(&self, post: Self, item: T::V) -> bool;

    /// Persists a brand-new entity. On success the persisted entity is
    /// returned unchanged, it is found under its id afterwards, and no other
    /// entity's lookup moves.
    fn insert(&mut self, item: &T) -> (r: Result<T, VideoRepositoryError>)
        requires
            old(self).inv(),
            Self::item_wf(item@),
        ensures
            final(self).inv(),
            r is Ok <==> old(self).may_insert(item@),
            r matches Ok(out) ==> out@ == item@,
            r matches Err(e) ==> e == old(self).insert_err(item@),
            r is Err ==> *final(self) == *old(self),
            r is Ok ==> final(self).lookup(Self::id_of(item@)) == Some(
                old(self).stored_view(item@),
            ),
            r is Ok ==> old(self).insert_frame(*final(self), item@),
            r is Ok ==> forall|other: u128|
                other != Self::id_of(item@) ==> final(self).lookup(other) == old(self).lookup(
                    other,
                ),
    ;

    /// Materializes the entity persisted under `id`. It fails exactly on the
    /// ids the store does not answer, and then with `NotFound`.
    fn find(&self, id: u128) -> (r: Result<T, VideoRepositoryError>)
        requires
            self.inv(),
        ensures
            r is Ok <==> self.lookup(id) is Some,
            r matches Ok(out) ==> self.lookup(id) == Some(out@),
            r matches Err(e) ==> e == VideoRepositoryError(StoreErrorKind::NotFound),
    ;

    /// Rewrites the mutable fields of the entity persisted under `item`'s
    /// id. On success the given entity is returned unchanged, its id
    /// afterwards reads back as `updated_view` says, and no other entity's
    /// lookup moves.
    fn update(&mut self, item: &T) -> (r: Result<T, VideoRepositoryError>)
        requires
            old(self).inv(),
            Self::item_wf(item@),
        ensures
            final(self).inv(),
            r is Ok <==> old(self).may_update(item@),
            r matches Ok(out) ==> out@ == item@,
            r matches Err(e) ==> e == old(self).update_err(item@),
            r is Err ==> *final(self) == *old(self),
            r is Ok ==> final(self).lookup(Self::id_of(item@)) == Some(
                old(self).updated_view(item@),
            ),
            r is Ok ==> old(self).update_frame(*final(self), item@),
            r is Ok ==> forall|other: u128|
                other != Self::id_of(item@) ==> final(self).lookup(other) == old(self).lookup(
                    other,
                ),
    ;
}

} // verus!
