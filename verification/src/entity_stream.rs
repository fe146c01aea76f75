//! Entity notifications as they arrive: a payload is decoded by the builder
//! registered for its variant tag, and the result is applied to the
//! client-local entity table.

use vstd::prelude::*;
use crate::entity::{applied, EntityError, EntityEvent, EntityNotice, EntityTable, LocalEntityKey};
use crate::events::{EventBuilder, EventError, EventRegistry, EventTypeId};

verus! {

/// An entity notification before its payload is decoded. The variant tag is
/// an opaque discriminator that selects the builder for the payload.
pub enum EntityMessage {
    /// Create the entity `key` from a payload of the tagged variant.
    Create(LocalEntityKey, EventTypeId, Vec<u8>),
    /// Update the entity `key` from a payload of the tagged variant.
    Update(LocalEntityKey, EventTypeId, Vec<u8>),
    /// Delete the entity `key`.
    Delete(LocalEntityKey),
}

/// Why an entity notification was not applied. None of these closes the
/// connection; what follows is the caller's decision.
#[derive(Clone, Copy, Debug, PartialEq, Eq, Structural)]
pub enum StreamError {
    /// The payload could not be turned into an entity.
    Decoding(EventError),
    /// The notification does not fit the table: client and server have lost
    /// step.
    Desynchronized(EntityError),
}

/// The table and the report after a decoded notification is applied.
pub open spec fn delivered<E>(table: Map<u16, E>, event: EntityEvent<E>) -> (
    Map<u16, E>,
    Result<EntityNotice, StreamError>,
) {
    (
        applied(table, event).0,
        match applied(table, event).1 {
            Ok(notice) => Ok(notice),
            Err(e) => Err(StreamError::Desynchronized(e)),
        },
    )
}

/// The table and the report once the payload of a create (or, where
/// `create` is false, of an update) for `key` has been through its builder:
/// a failed build leaves the table alone, a built entity is applied.
pub open spec fn settled<E>(
    table: Map<u16, E>,
    key: LocalEntityKey,
    create: bool,
    built: Result<E, EventError>,
) -> (Map<u16, E>, Result<EntityNotice, StreamError>) {
    match built {
        Err(e) => (table, Err(StreamError::Decoding(e))),
        Ok(entity) => if create {
            delivered(table, EntityEvent::CreateEntity(key, entity))
        } else {
            delivered(table, EntityEvent::UpdateEntity(key, entity))
        },
    }
}

/// Applies a decoded notification to `table`.
pub fn deliver<E>(table: &mut EntityTable<E>, event: EntityEvent<E>) -> (r: Result<
    EntityNotice,
    StreamError,
>)
    ensures
        (final(table)@, r) == delivered(old(table)@, event),
{
    match table.apply(event) {
        Ok(notice) => Ok(notice),
        Err(e) => Err(StreamError::Desynchronized(e)),
    }
}

/// Finishes a create (or, where `create` is false, an update) for `key`
/// with what the builder made of the payload.
pub fn settle<E>(
    table: &mut EntityTable<E>,
    key: LocalEntityKey,
    create: bool,
    built: Result<E, EventError>,
) -> (r: Result<EntityNotice, StreamError>)
    ensures
        (final(table)@, r) == settled(old(table)@, key, create, built),
{
    match built {
        Err(e) => Err(StreamError::Decoding(e)),
        Ok(entity) => if create {
            deliver(table, EntityEvent::CreateEntity(key, entity))
        } else {
            deliver(table, EntityEvent::UpdateEntity(key, entity))
        },
    }
}

/// Handles one entity notification. A delete is applied as it is. The
/// payload of a create or an update goes to the builder registered for its
/// tag: without one the report is the unknown-type error and the table
/// stays; with one the builder decides what was built, and the table and
/// the report are settled from that.
pub fn receive<E, B: EventBuilder<E>>(
    table: &mut EntityTable<E>,
    builders: &EventRegistry<E, B>,
    message: &EntityMessage,
) -> (r: Result<EntityNotice, StreamError>)
    ensures
        match *message {
            EntityMessage::Delete(key) => (final(table)@, r) == delivered(
                old(table)@,
                EntityEvent::<E>::DeleteEntity(key),
            ),
            EntityMessage::Create(key, tag, _) => if builders@.contains_key(tag) {
                exists|built: Result<E, EventError>|
                    built != Err::<E, EventError>(EventError::UnknownType) && (final(table)@, r)
                        == #[trigger] settled(old(table)@, key, true, built)
            } else {
                final(table)@ == old(table)@ && r == Err::<EntityNotice, StreamError>(
                    StreamError::Decoding(EventError::UnknownType),
                )
            },
            EntityMessage::Update(key, tag, _) => if builders@.contains_key(tag) {
                exists|built: Result<E, EventError>|
                    built != Err::<E, EventError>(EventError::UnknownType) && (final(table)@, r)
                        == #[trigger] settled(old(table)@, key, false, built)
            } else {
                final(table)@ == old(table)@ && r == Err::<EntityNotice, StreamError>(
                    StreamError::Decoding(EventError::UnknownType),
                )
            },
        },
{
    match message {
        EntityMessage::Delete(key) => deliver(table, EntityEvent::DeleteEntity(*key)),
        EntityMessage::Create(key, tag, payload) => {
            let built = builders.build(*tag, payload.as_slice());
            let ghost before = table@;
            let ghost witness = built;
            let r = settle(table, *key, true, built);
            proof {
                if builders@.contains_key(*tag) {
                    assert((table@, r) == settled(before, *key, true, witness));
                }
            }
            r
        },
        EntityMessage::Update(key, tag, payload) => {
            let built = builders.build(*tag, payload.as_slice());
            let ghost before = table@;
            let ghost witness = built;
            let r = settle(table, *key, false, built);
            proof {
                if builders@.contains_key(*tag) {
                    assert((table@, r) == settled(before, *key, false, witness));
                }
            }
            r
        },
    }
}

} // verus!
