//! The client-local entity table and the notifications that change it.

use vstd::prelude::*;
use std::collections::HashMap;

verus! {

broadcast use vstd::std_specs::hash::group_hash_axioms;

/// The key of an entity, local to one connection.
pub type LocalEntityKey = u16;

/// A decoded entity notification. The entity value is application-defined;
/// the table stores it and never looks inside.
pub enum EntityEvent<E> {
    /// A new entity appears under the key.
    CreateEntity(LocalEntityKey, E),
    /// The entity under the key takes a new value.
    UpdateEntity(LocalEntityKey, E),
    /// The entity under the key goes away.
    DeleteEntity(LocalEntityKey),
}

/// A sign that client and server have lost step.
#[derive(Clone, Copy, Debug, PartialEq, Eq, Structural)]
pub enum EntityError {
    /// An entity was created under a key that is in use.
    DuplicateCreate(LocalEntityKey),
    /// An entity was updated under a key that is not in use.
    MissingKey(LocalEntityKey),
}

/// What the application is told after a notification was applied.
#[derive(Clone, Copy, Debug, PartialEq, Eq, Structural)]
pub enum EntityNotice {
    /// The entity under the key was created.
    Created(LocalEntityKey),
    /// The entity under the key was updated.
    Updated(LocalEntityKey),
    /// The entity under the key was deleted.
    Deleted(LocalEntityKey),
    /// A delete named a key that was not in use; nothing changed.
    Nothing,
}

/// The table and the report after `event` is applied to `table`.
pub open spec fn applied<E>(table: Map<u16, E>, event: EntityEvent<E>) -> (
    Map<u16, E>,
    Result<EntityNotice, EntityError>,
) {
    match event {
        EntityEvent::CreateEntity(key, entity) => if table.contains_key(key) {
            (table, Err(EntityError::DuplicateCreate(key)))
        } else {
            (table.insert(key, entity), Ok(EntityNotice::Created(key)))
        },
        EntityEvent::UpdateEntity(key, entity) => if table.contains_key(key) {
            (table.insert(key, entity), Ok(EntityNotice::Updated(key)))
        } else {
            (table, Err(EntityError::MissingKey(key)))
        },
        EntityEvent::DeleteEntity(key) => if table.contains_key(key) {
            (table.remove(key), Ok(EntityNotice::Deleted(key)))
        } else {
            (table, Ok(EntityNotice::Nothing))
        },
    }
}

/// Creating an entity under a free key succeeds, and creating another under
/// the same key right after reports a duplicate and changes nothing.
pub proof fn second_create_is_a_duplicate<E>(table: Map<u16, E>, key: u16, first: E, second: E)
    requires
        !table.contains_key(key),
    ensures
        applied(table, EntityEvent::CreateEntity(key, first)).1 == Ok::<EntityNotice, EntityError>(
            EntityNotice::Created(key),
        ),
        applied(
            applied(table, EntityEvent::CreateEntity(key, first)).0,
            EntityEvent::CreateEntity(key, second),
        ) == (
            table.insert(key, first),
            Err::<EntityNotice, EntityError>(EntityError::DuplicateCreate(key)),
        ),
{
}

/// A delete never fails and leaves the key free, so a second delete of the
/// same key changes nothing and reports nothing.
pub proof fn delete_is_idempotent<E>(table: Map<u16, E>, key: u16)
    ensures
        applied(table, EntityEvent::<E>::DeleteEntity(key)).1.is_ok(),
        !applied(table, EntityEvent::<E>::DeleteEntity(key)).0.contains_key(key),
        applied(
            applied(table, EntityEvent::<E>::DeleteEntity(key)).0,
            EntityEvent::<E>::DeleteEntity(key),
        ) == (
            applied(table, EntityEvent::<E>::DeleteEntity(key)).0,
            Ok::<EntityNotice, EntityError>(EntityNotice::Nothing),
        ),
{
}

/// Deleting a key that is not in use leaves the table as it is.
pub proof fn delete_of_missing_key_is_a_no_op<E>(table: Map<u16, E>, key: u16)
    requires
        !table.contains_key(key),
    ensures
        applied(table, EntityEvent::<E>::DeleteEntity(key)) == (
            table,
            Ok::<EntityNotice, EntityError>(EntityNotice::Nothing),
        ),
{
}

/// An update under a key that is not in use reports the missing key and
/// changes nothing.
pub proof fn update_before_create_is_missing<E>(table: Map<u16, E>, key: u16, entity: E)
    requires
        !table.contains_key(key),
    ensures
        applied(table, EntityEvent::UpdateEntity(key, entity)) == (
            table,
            Err::<EntityNotice, EntityError>(EntityError::MissingKey(key)),
        ),
{
}

/// The entities of one connection, by local key.
pub struct EntityTable<E> {
    entries: HashMap<u16, E>,
}

impl<E> View for EntityTable<E> {
    type V = Map<u16, E>;

    closed spec fn view(&self) -> Map<u16, E> {
        self.entries@
    }
}

impl<E> EntityTable<E> {
    /// A table with no entity.
    pub fn new() -> (r: Self)
        ensures
            r@ == Map::<u16, E>::empty(),
    {
        EntityTable { entries: HashMap::new() }
    }

    /// Number of entities in the table.
    pub fn len(&self) -> (n: usize)
        ensures
            n == self@.len(),
    {
        self.entries.len()
    }

    /// Whether an entity is stored under `key`.
    pub fn contains(&self, key: LocalEntityKey) -> (r: bool)
        ensures
            r == self@.contains_key(key),
    {
        self.entries.contains_key(&key)
    }

    /// A read-only view of the entity under `key`, if there is one.
    pub fn get(&self, key: LocalEntityKey) -> (r: Option<&E>)
        ensures
            match r {
                Some(entity) => self@.contains_key(key) && *entity == self@[key],
                None => !self@.contains_key(key),
            },
    {
        self.entries.get(&key)
    }

    /// Inserts a new entity under `key`. A key that is in use is reported as
    /// a duplicate create, and the table keeps its entity.
    pub fn create(&mut self, key: LocalEntityKey, entity: E) -> (r: Result<(), EntityError>)
        ensures
            old(self)@.contains_key(key) ==> final(self)@ == old(self)@
                && r == Err::<(), EntityError>(EntityError::DuplicateCreate(key)),
            !old(self)@.contains_key(key) ==> final(self)@ == old(self)@.insert(key, entity)
                && r == Ok::<(), EntityError>(()),
    {
        if self.entries.contains_key(&key) {
            Err(EntityError::DuplicateCreate(key))
        } else {
            self.entries.insert(key, entity);
            Ok(())
        }
    }

    /// Replaces the entity under `key`. A key that is not in use is reported
    /// as missing, and the table stays as it is.
    pub fn update(&mut self, key: LocalEntityKey, entity: E) -> (r: Result<(), EntityError>)
        ensures
            old(self)@.contains_key(key) ==> final(self)@ == old(self)@.insert(key, entity)
                && r == Ok::<(), EntityError>(()),
            !old(self)@.contains_key(key) ==> final(self)@ == old(self)@
                && r == Err::<(), EntityError>(EntityError::MissingKey(key)),
    {
        if self.entries.contains_key(&key) {
            self.entries.insert(key, entity);
            Ok(())
        } else {
            Err(EntityError::MissingKey(key))
        }
    }

    /// Removes the entity under `key` and says whether there was one. A key
    /// that is not in use is tolerated: nothing changes.
    pub fn delete(&mut self, key: LocalEntityKey) -> (removed: bool)
        ensures
            removed == old(self)@.contains_key(key),
            final(self)@ == old(self)@.remove(key),
            !removed ==> final(self)@ == old(self)@,
    {
        let gone = self.entries.remove(&key);
        proof {
            if !old(self)@.contains_key(key) {
                assert(old(self)@.remove(key) =~= old(self)@);
            }
        }
        gone.is_some()
    }

    /// Applies one notification to the table and reports what happened.
    pub fn apply(&mut self, event: EntityEvent<E>) -> (r: Result<EntityNotice, EntityError>)
        ensures
            (final(self)@, r) == applied(old(self)@, event),
    {
        match event {
            EntityEvent::CreateEntity(key, entity) => match self.create(key, entity) {
                Ok(()) => Ok(EntityNotice::Created(key)),
                Err(e) => Err(e),
            },
            EntityEvent::UpdateEntity(key, entity) => match self.update(key, entity) {
                Ok(()) => Ok(EntityNotice::Updated(key)),
                Err(e) => Err(e),
            },
            EntityEvent::DeleteEntity(key) => {
                if self.delete(key) {
                    Ok(EntityNotice::Deleted(key))
                } else {
                    Ok(EntityNotice::Nothing)
                }
            },
        }
    }
}

} // verus!
