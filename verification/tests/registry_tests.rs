use std::cmp::Ordering;
use wormhole::room_registry::MAX_CREATE_ROOM_ID_ATTEMPTS;
use wormhole::{
    Player, PlayerId, ProvideRoomId, Room, RoomCreationError, RoomId, RoomRegistry,
    UuidRoomIdProvider,
};

struct BadIdProvider;

impl ProvideRoomId for BadIdProvider {
    // the erased forms of the trait's two spec functions: this double is
    // deterministic and always yields zero
    fn is_deterministic() -> bool {
        true
    }

    fn provided_id() -> u128 {
        0
    }

    fn provide_id() -> RoomId {
        RoomId::from(0u128)
    }
}

struct FixedIdProvider;

impl ProvideRoomId for FixedIdProvider {
    fn is_deterministic() -> bool {
        true
    }

    fn provided_id() -> u128 {
        1234
    }

    fn provide_id() -> RoomId {
        RoomId::from(1234u128)
    }
}

#[test]
fn returns_room_if_one_exists() {
    let rt = tokio::runtime::Runtime::new().unwrap();
    let _guard = rt.enter();
    let room_id = 1234u128;
    let (sender, _receiver) = tokio::sync::mpsc::channel(1);
    let mut registry: RoomRegistry<FixedIdProvider> = RoomRegistry::new();
    registry.create_room(sender.clone()).unwrap();
    let room = registry.get_room_for_id(RoomId::from(room_id));
    assert_eq!(room, Some(&Room::new(RoomId::from(room_id), sender)));
}

#[test]
fn returns_none_if_no_rooms_exist() {
    let rt = tokio::runtime::Runtime::new().unwrap();
    let _guard = rt.enter();
    let bad_room_id = 0u128;
    let (sender, _receiver) = tokio::sync::mpsc::channel(1);
    let mut registry: RoomRegistry<FixedIdProvider> = RoomRegistry::new();
    registry.create_room(sender).unwrap();
    let room = registry.get_room_for_id(RoomId::from(bad_room_id));
    assert_eq!(room, None);
}

#[test]
fn adds_room_to_registry_on_creation() {
    let rt = tokio::runtime::Runtime::new().unwrap();
    let _guard = rt.enter();
    let mut registry: RoomRegistry<UuidRoomIdProvider> = RoomRegistry::new();
    let (sender, _receiver) = tokio::sync::mpsc::channel(1);
    let id = registry.create_room(sender).unwrap();
    let room = registry.get_room_for_id(id);
    assert_ne!(room, Option::None);
}

#[test]
fn fails_if_new_room_cant_be_created_after_max_attempts() {
    let rt = tokio::runtime::Runtime::new().unwrap();
    let _guard = rt.enter();
    let mut registry: RoomRegistry<BadIdProvider> = RoomRegistry::new();
    let (sender, _receiver) = tokio::sync::mpsc::channel(1);
    // Bad room id provider only returns 0 so after the first room is created
    // we should be unable to create another one
    let _ = registry.create_room(sender);

    let (sender, _receiver) = tokio::sync::mpsc::channel(1);
    let res = registry.create_room(sender);
    assert_eq!(
        res,
        Err(RoomCreationError::UnableToCreateIdentifier(
            MAX_CREATE_ROOM_ID_ATTEMPTS
        ))
    );
}

#[test]
fn created_ids_are_distinct_and_present() {
    let rt = tokio::runtime::Runtime::new().unwrap();
    let _guard = rt.enter();
    let mut registry: RoomRegistry<UuidRoomIdProvider> = RoomRegistry::new();
    let (sender, _receiver) = tokio::sync::mpsc::channel(16);
    let mut ids: Vec<RoomId> = Vec::new();
    for _ in 0..5 {
        ids.push(registry.create_room(sender.clone()).unwrap());
    }
    for i in 0..ids.len() {
        for j in 0..ids.len() {
            if i != j {
                assert_ne!(ids[i], ids[j]);
            }
        }
        assert!(registry.get_room_for_id(ids[i]).is_some());
    }
}

#[test]
fn failed_creation_leaves_registry_unchanged() {
    let rt = tokio::runtime::Runtime::new().unwrap();
    let _guard = rt.enter();
    let mut registry: RoomRegistry<BadIdProvider> = RoomRegistry::new();
    let (sender, _receiver) = tokio::sync::mpsc::channel(4);

    let created = registry.create_room(sender.clone()).unwrap();
    assert_eq!(created, RoomId::from(0u128));

    let res = registry.create_room(sender);
    assert_eq!(
        res,
        Err(RoomCreationError::UnableToCreateIdentifier(
            MAX_CREATE_ROOM_ID_ATTEMPTS
        ))
    );
    // the failure mutated nothing: the original room is still the only one
    assert!(registry.get_room_for_id(created).is_some());
    assert_eq!(registry.list_active_rooms().len(), 1);
}

#[test]
fn delete_room_is_idempotent() {
    let rt = tokio::runtime::Runtime::new().unwrap();
    let _guard = rt.enter();
    let mut registry: RoomRegistry<UuidRoomIdProvider> = RoomRegistry::new();
    let (sender, _receiver) = tokio::sync::mpsc::channel(4);
    let id = registry.create_room(sender).unwrap();
    let absent = RoomId::from(id.as_u128().wrapping_add(1));

    // deleting an absent id does not error and leaves the table unchanged
    registry.delete_room(&absent);
    assert!(registry.get_room_for_id(id).is_some());
    assert_eq!(registry.list_active_rooms().len(), 1);

    // deleting the same id twice is the same as deleting it once
    registry.delete_room(&id);
    registry.delete_room(&id);
    assert!(registry.get_room_for_id(id).is_none());
    assert_eq!(registry.list_active_rooms().len(), 0);
}

#[test]
fn lookup_finds_exactly_the_inserted_room() {
    let rt = tokio::runtime::Runtime::new().unwrap();
    let _guard = rt.enter();
    let mut registry: RoomRegistry<UuidRoomIdProvider> = RoomRegistry::new();
    assert!(registry
        .get_room_for_id(RoomId::from(42u128))
        .is_none());
    let (sender, _receiver) = tokio::sync::mpsc::channel(4);
    let id = registry.create_room(sender).unwrap();
    let room = registry.get_room_for_id(id).unwrap();
    assert_eq!(room.id(), id);
}

#[test]
fn enumeration_matches_created_rooms() {
    let rt = tokio::runtime::Runtime::new().unwrap();
    let _guard = rt.enter();
    let mut registry: RoomRegistry<UuidRoomIdProvider> = RoomRegistry::new();
    let (sender, _receiver) = tokio::sync::mpsc::channel(8);
    let a = registry.create_room(sender.clone()).unwrap();
    let b = registry.create_room(sender.clone()).unwrap();
    let c = registry.create_room(sender).unwrap();

    let listed = registry.list_active_rooms();
    assert_eq!(listed.len(), 3);
    assert!(listed.contains(&a.to_text()));
    assert!(listed.contains(&b.to_text()));
    assert!(listed.contains(&c.to_text()));

    registry.delete_room(&b);
    let listed = registry.list_active_rooms();
    assert_eq!(listed.len(), 2);
    assert!(listed.contains(&a.to_text()));
    assert!(!listed.contains(&b.to_text()));
    assert!(listed.contains(&c.to_text()));
}

#[test]
fn renders_canonical_uuid_text() {
    let id = RoomId::from(0x00112233445566778899aabbccddeeffu128);
    assert_eq!(id.to_text(), "00112233-4455-6677-8899-aabbccddeeff");
    assert_eq!(
        RoomId::from(0u128).to_text(),
        "00000000-0000-0000-0000-000000000000"
    );
    assert_eq!(
        RoomId::from(u128::MAX).to_text(),
        "ffffffff-ffff-ffff-ffff-ffffffffffff"
    );
}

#[test]
fn room_id_round_trips_its_value() {
    let id = RoomId::from(77u128);
    assert_eq!(id.as_u128(), 77u128);
    assert_eq!(id, RoomId::from(77u128));
    assert_ne!(id, RoomId::from(78u128));
}

#[test]
fn player_identity_follows_id() {
    let one = Player {
        id: PlayerId::from(1u128),
    };
    let also_one = Player {
        id: PlayerId::from(1u128),
    };
    let two = Player {
        id: PlayerId::from(2u128),
    };
    assert_eq!(one, also_one);
    assert_ne!(one, two);
    assert_eq!(one.partial_cmp(&two), Some(Ordering::Less));
    assert_eq!(one.partial_cmp(&also_one), Some(Ordering::Equal));
    assert_eq!(two.partial_cmp(&one), Some(Ordering::Greater));
}
