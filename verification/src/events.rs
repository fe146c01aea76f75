//! Typed event construction: builders that decode one event type each, and
//! the registry that finds the builder for a wire type identifier.

use vstd::prelude::*;
use core::marker::PhantomData;
use std::collections::HashMap;

verus! {

broadcast use vstd::std_specs::hash::group_hash_axioms;

/// The wire identifier of an event type.
pub type EventTypeId = u16;

/// Handles the creation of new events of one type from raw bytes. The
/// application implements it; the registry promises nothing of what an
/// implementation returns.
pub trait EventBuilder<T> {
    /// Gets the identifier of the event type that this builder decodes.
    fn get_type_id(&self) -> EventTypeId;

    /// Creates a new event from `in_bytes`, or `None` where the payload is
    /// malformed.
    fn build(&self, in_bytes: &[u8]) -> Option<T>;
}

/// Why an event could not be built.
#[derive(Clone, Copy, Debug, PartialEq, Eq, Structural)]
pub enum EventError {
    /// No builder is registered for the type identifier.
    UnknownType,
    /// The builder could not parse the payload.
    MalformedPayload,
}

/// Why a builder could not be registered.
#[derive(Clone, Copy, Debug, PartialEq, Eq, Structural)]
pub enum RegistryError {
    /// A builder for the same type identifier is registered already.
    DuplicateType,
}

/// The registry and the report after `builder` is registered under `id`:
/// a free identifier takes the builder, a taken one is refused and keeps
/// the builder it has.
pub open spec fn registration<B>(builders: Map<u16, B>, id: EventTypeId, builder: B) -> (
    Map<u16, B>,
    Result<(), RegistryError>,
) {
    if builders.contains_key(id) {
        (builders, Err(RegistryError::DuplicateType))
    } else {
        (builders.insert(id, builder), Ok(()))
    }
}

/// The registry and the report after `builder` is registered under the
/// identifier `id` that it named: as `registration` says, with the
/// identifier handed back on success.
pub open spec fn named_registration<B>(builders: Map<u16, B>, id: EventTypeId, builder: B) -> (
    Map<u16, B>,
    Result<EventTypeId, RegistryError>,
) {
    if builders.contains_key(id) {
        (builders, Err(RegistryError::DuplicateType))
    } else {
        (builders.insert(id, builder), Ok(id))
    }
}

/// What a builder's answer becomes as the result of a build.
pub open spec fn built<T>(answer: Option<T>) -> Result<T, EventError> {
    match answer {
        Some(event) => Ok(event),
        None => Err(EventError::MalformedPayload),
    }
}

/// Turns what a builder returned into the result of a build.
pub fn finish_build<T>(answer: Option<T>) -> (r: Result<T, EventError>)
    ensures
        r == built(answer),
{
    match answer {
        Some(event) => Ok(event),
        None => Err(EventError::MalformedPayload),
    }
}

/// After a builder is registered under a free identifier, that identifier
/// leads to this builder, every other identifier leads where it led before,
/// and a second registration under the identifier is refused and changes
/// nothing.
pub proof fn registered_builder_is_found<B>(
    builders: Map<u16, B>,
    id: EventTypeId,
    builder: B,
    other: B,
)
    requires
        !builders.contains_key(id),
    ensures
        registration(builders, id, builder).1 == Ok::<(), RegistryError>(()),
        registration(builders, id, builder).0.contains_key(id),
        registration(builders, id, builder).0[id] == builder,
        forall|known: EventTypeId|
            known != id ==> registration(builders, id, builder).0.contains_key(known)
                == builders.contains_key(known) && (builders.contains_key(known)
                ==> registration(builders, id, builder).0[known] == builders[known]),
        registration(registration(builders, id, builder).0, id, other) == (
            registration(builders, id, builder).0,
            Err::<(), RegistryError>(RegistryError::DuplicateType),
        ),
{
}

/// Maps each registered type identifier to the one builder that decodes it.
pub struct EventRegistry<T, B: EventBuilder<T>> {
    entries: HashMap<u16, B>,
    marker: PhantomData<T>,
}

impl<T, B: EventBuilder<T>> View for EventRegistry<T, B> {
    type V = Map<u16, B>;

    closed spec fn view(&self) -> Map<u16, B> {
        self.entries@
    }
}

impl<T, B: EventBuilder<T>> EventRegistry<T, B> {
    /// A registry with no builder.
    pub fn new() -> (r: Self)
        ensures
            r@ == Map::<u16, B>::empty(),
    {
        EventRegistry { entries: HashMap::new(), marker: PhantomData }
    }

    /// Number of registered builders.
    pub fn len(&self) -> (n: usize)
        ensures
            n == self@.len(),
    {
        self.entries.len()
    }

    /// Whether a builder is registered for `id`.
    pub fn is_registered(&self, id: EventTypeId) -> (r: bool)
        ensures
            r == self@.contains_key(id),
    {
        self.entries.contains_key(&id)
    }

    /// The builder registered for `id`, if there is one.
    pub fn builder(&self, id: EventTypeId) -> (r: Option<&B>)
        ensures
            match r {
                Some(found) => self@.contains_key(id) && *found == self@[id],
                None => !self@.contains_key(id),
            },
    {
        self.entries.get(&id)
    }

    /// Associates `id` with `builder`. Registering an identifier a second
    /// time is refused, and the registry keeps the builder it has.
    pub fn register(&mut self, id: EventTypeId, builder: B) -> (r: Result<(), RegistryError>)
        ensures
            (final(self)@, r) == registration(old(self)@, id, builder),
    {
        if self.entries.contains_key(&id) {
            Err(RegistryError::DuplicateType)
        } else {
            self.entries.insert(id, builder);
            Ok(())
        }
    }

    /// Registers `builder` under the identifier that the builder names, and
    /// returns that identifier. The identifier is the builder's to choose;
    /// whichever it names, the builder is registered under it where it is
    /// free, and refused where it is taken. So the registration succeeds
    /// whenever the registry holds no builder yet, and a refusal means that
    /// the registry is unchanged and holds a builder.
    pub fn register_builder(&mut self, builder: B) -> (r: Result<EventTypeId, RegistryError>)
        ensures
            exists|id: EventTypeId|
                (final(self)@, r) == #[trigger] named_registration(old(self)@, id, builder),
            match r {
                Ok(id) => (final(self)@, r) == named_registration(old(self)@, id, builder),
                Err(e) => e == RegistryError::DuplicateType && final(self)@ == old(self)@,
            },
            (forall|id: EventTypeId| !old(self)@.contains_key(id)) ==> r.is_ok(),
    {
        let id = builder.get_type_id();
        let r = match self.register(id, builder) {
            Ok(()) => Ok(id),
            Err(e) => Err(e),
        };
        assert((self@, r) == named_registration(old(self)@, id, builder));
        r
    }

    /// Builds the event of type `id` from `bytes` with the builder
    /// registered for `id`. Fails with the unknown-type error exactly where
    /// no builder is registered. Where one is, the builder decides: its
    /// event is returned, or the malformed-payload error where it gives
    /// none.
    pub fn build(&self, id: EventTypeId, bytes: &[u8]) -> (r: Result<T, EventError>)
        ensures
            (r == Err::<T, EventError>(EventError::UnknownType)) == !self@.contains_key(id),
            self@.contains_key(id) ==> r.is_ok() || r == Err::<T, EventError>(
                EventError::MalformedPayload,
            ),
    {
        match self.builder(id) {
            Some(found) => finish_build(found.build(bytes)),
            None => Err(EventError::UnknownType),
        }
    }
}

} // verus!
