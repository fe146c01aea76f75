use naia_shared::entity::{EntityError, EntityEvent, EntityNotice, EntityTable};
use naia_shared::entity_stream::{deliver, receive, settle, EntityMessage, StreamError};
use naia_shared::events::{finish_build, EventBuilder, EventError, EventRegistry, RegistryError};

#[derive(Debug, PartialEq)]
enum Sample {
    Text(String),
    Point(u8, u8),
}

struct SampleBuilder {
    id: u16,
    point: bool,
}

impl EventBuilder<Sample> for SampleBuilder {
    fn get_type_id(&self) -> u16 {
        self.id
    }

    fn build(&self, in_bytes: &[u8]) -> Option<Sample> {
        if self.point {
            if in_bytes.len() == 2 {
                Some(Sample::Point(in_bytes[0], in_bytes[1]))
            } else {
                None
            }
        } else {
            String::from_utf8(in_bytes.to_vec()).ok().map(Sample::Text)
        }
    }
}

fn registry() -> EventRegistry<Sample, SampleBuilder> {
    let mut registry = EventRegistry::new();
    assert_eq!(registry.register(1, SampleBuilder { id: 1, point: false }), Ok(()));
    assert_eq!(registry.register_builder(SampleBuilder { id: 2, point: true }), Ok(2));
    registry
}

#[test]
fn build_uses_the_registered_builder() {
    let registry = registry();
    assert_eq!(registry.len(), 2);
    assert_eq!(registry.build(1, b"hi"), Ok(Sample::Text("hi".to_string())));
    assert_eq!(registry.build(2, b"hi"), Ok(Sample::Point(104, 105)));
}

#[test]
fn build_of_unknown_type_fails() {
    let registry = registry();
    assert!(!registry.is_registered(3));
    assert_eq!(registry.build(3, b"hi"), Err(EventError::UnknownType));
    let empty: EventRegistry<Sample, SampleBuilder> = EventRegistry::new();
    assert_eq!(empty.build(1, b"hi"), Err(EventError::UnknownType));
}

#[test]
fn build_of_malformed_payload_fails() {
    let registry = registry();
    assert_eq!(registry.build(2, b"abc"), Err(EventError::MalformedPayload));
    assert_eq!(registry.build(2, b""), Err(EventError::MalformedPayload));
    assert_eq!(registry.build(1, &[0xff, 0xfe]), Err(EventError::MalformedPayload));
}

#[test]
fn registering_a_type_twice_fails() {
    let mut registry = registry();
    assert!(registry.is_registered(1));
    assert_eq!(
        registry.register(1, SampleBuilder { id: 1, point: true }),
        Err(RegistryError::DuplicateType)
    );
    assert_eq!(
        registry.register_builder(SampleBuilder { id: 2, point: false }),
        Err(RegistryError::DuplicateType)
    );
    assert_eq!(registry.len(), 2);
    assert_eq!(registry.build(2, b"ok"), Ok(Sample::Point(111, 107)));
    assert!(registry.builder(2).unwrap().point);
    assert!(registry.builder(5).is_none());
    assert_eq!(registry.build(1, b"ok"), Ok(Sample::Text("ok".to_string())));
}

#[test]
fn finish_build_maps_a_missing_event() {
    assert_eq!(finish_build(Some(5u8)), Ok(5u8));
    assert_eq!(finish_build(None::<u8>), Err(EventError::MalformedPayload));
}

#[test]
fn create_entity_twice_is_a_duplicate() {
    let mut table: EntityTable<(i32, i32)> = EntityTable::new();
    assert_eq!(table.apply(EntityEvent::CreateEntity(7, (1, 2))), Ok(EntityNotice::Created(7)));
    assert_eq!(
        table.apply(EntityEvent::CreateEntity(7, (3, 4))),
        Err(EntityError::DuplicateCreate(7))
    );
    assert_eq!(table.get(7), Some(&(1, 2)));
    assert_eq!(table.len(), 1);
}

#[test]
fn delete_entity_twice_is_a_no_op() {
    let mut table: EntityTable<(i32, i32)> = EntityTable::new();
    assert_eq!(table.apply(EntityEvent::DeleteEntity(3)), Ok(EntityNotice::Nothing));
    assert_eq!(table.apply(EntityEvent::DeleteEntity(3)), Ok(EntityNotice::Nothing));
    assert_eq!(table.len(), 0);
    assert_eq!(table.create(3, (0, 0)), Ok(()));
    assert_eq!(table.apply(EntityEvent::DeleteEntity(3)), Ok(EntityNotice::Deleted(3)));
    assert_eq!(table.apply(EntityEvent::DeleteEntity(3)), Ok(EntityNotice::Nothing));
    assert!(!table.contains(3));
    assert!(!table.delete(3));
}

#[test]
fn update_before_create_is_a_missing_key() {
    let mut table: EntityTable<(i32, i32)> = EntityTable::new();
    assert_eq!(
        table.apply(EntityEvent::UpdateEntity(9, (1, 1))),
        Err(EntityError::MissingKey(9))
    );
    assert!(!table.contains(9));
    assert_eq!(table.update(9, (1, 1)), Err(EntityError::MissingKey(9)));
    assert_eq!(table.len(), 0);
}

#[test]
fn entity_lifecycle() {
    let mut table: EntityTable<(i32, i32)> = EntityTable::new();
    assert_eq!(table.create(1, (10, 20)), Ok(()));
    assert_eq!(table.create(2, (30, 40)), Ok(()));
    assert_eq!(table.apply(EntityEvent::UpdateEntity(1, (11, 21))), Ok(EntityNotice::Updated(1)));
    assert_eq!(table.get(1), Some(&(11, 21)));
    assert_eq!(table.get(2), Some(&(30, 40)));
    assert_eq!(table.get(3), None);
    assert!(table.delete(1));
    assert_eq!(table.get(1), None);
    assert_eq!(table.len(), 1);
    assert_eq!(table.create(1, (0, 0)), Ok(()));
    assert_eq!(table.len(), 2);
}

#[test]
fn stream_decodes_and_applies_notifications() {
    let builders = registry();
    let mut table: EntityTable<Sample> = EntityTable::new();
    assert_eq!(
        receive(&mut table, &builders, &EntityMessage::Create(4, 2, vec![1, 2])),
        Ok(EntityNotice::Created(4))
    );
    assert_eq!(table.get(4), Some(&Sample::Point(1, 2)));
    assert_eq!(
        receive(&mut table, &builders, &EntityMessage::Create(4, 2, vec![3, 4])),
        Err(StreamError::Desynchronized(EntityError::DuplicateCreate(4)))
    );
    assert_eq!(
        receive(&mut table, &builders, &EntityMessage::Update(4, 2, vec![5, 6])),
        Ok(EntityNotice::Updated(4))
    );
    assert_eq!(table.get(4), Some(&Sample::Point(5, 6)));
    assert_eq!(
        receive(&mut table, &builders, &EntityMessage::Update(5, 2, vec![5, 6])),
        Err(StreamError::Desynchronized(EntityError::MissingKey(5)))
    );
    assert_eq!(
        receive(&mut table, &builders, &EntityMessage::Delete(4)),
        Ok(EntityNotice::Deleted(4))
    );
    assert_eq!(
        receive(&mut table, &builders, &EntityMessage::Delete(4)),
        Ok(EntityNotice::Nothing)
    );
    assert_eq!(table.len(), 0);
}

#[test]
fn stream_reports_decoding_errors_and_keeps_the_table() {
    let builders = registry();
    let mut table: EntityTable<Sample> = EntityTable::new();
    assert_eq!(
        receive(&mut table, &builders, &EntityMessage::Create(1, 9, vec![1, 2])),
        Err(StreamError::Decoding(EventError::UnknownType))
    );
    assert_eq!(
        receive(&mut table, &builders, &EntityMessage::Create(1, 2, vec![1, 2, 3])),
        Err(StreamError::Decoding(EventError::MalformedPayload))
    );
    assert_eq!(table.len(), 0);
    assert_eq!(table.create(1, Sample::Point(0, 0)), Ok(()));
    assert_eq!(
        receive(&mut table, &builders, &EntityMessage::Update(1, 9, vec![1, 2])),
        Err(StreamError::Decoding(EventError::UnknownType))
    );
    assert_eq!(
        receive(&mut table, &builders, &EntityMessage::Update(1, 2, vec![])),
        Err(StreamError::Decoding(EventError::MalformedPayload))
    );
    assert_eq!(table.get(1), Some(&Sample::Point(0, 0)));
}

#[test]
fn settle_and_deliver_follow_the_table() {
    let mut table: EntityTable<u8> = EntityTable::new();
    assert_eq!(settle(&mut table, 1, false, Ok(7)), Err(StreamError::Desynchronized(EntityError::MissingKey(1))));
    assert_eq!(settle(&mut table, 1, true, Err(EventError::MalformedPayload)), Err(StreamError::Decoding(EventError::MalformedPayload)));
    assert_eq!(settle(&mut table, 1, true, Ok(7)), Ok(EntityNotice::Created(1)));
    assert_eq!(settle(&mut table, 1, false, Ok(8)), Ok(EntityNotice::Updated(1)));
    assert_eq!(table.get(1), Some(&8));
    assert_eq!(deliver(&mut table, EntityEvent::CreateEntity(1, 9)), Err(StreamError::Desynchronized(EntityError::DuplicateCreate(1))));
    assert_eq!(deliver(&mut table, EntityEvent::DeleteEntity(1)), Ok(EntityNotice::Deleted(1)));
}
