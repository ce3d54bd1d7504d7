use std::time::Duration;
use wormhole::{Room, RoomDeletionHandler, RoomId, RoomRegistry, SharedRegistry, UuidRoomIdProvider};

#[test]
fn idle_timer_posts_exactly_one_deletion_request() {
    let rt = tokio::runtime::Runtime::new().unwrap();
    let (sender, mut receiver) = tokio::sync::mpsc::channel::<RoomId>(100);
    let mut registry: RoomRegistry<UuidRoomIdProvider> = RoomRegistry::new_with_timeout(1);
    let id;
    {
        let _guard = rt.enter();
        id = registry.create_room(sender).unwrap();
    }
    // the idle window elapses with no cancellation: exactly one request
    // arrives, carrying that room's id
    let first = rt.block_on(receiver.recv());
    assert_eq!(first, Some(id));
    let grace = {
        let _guard = rt.enter();
        tokio::time::sleep(Duration::from_millis(300))
    };
    rt.block_on(grace);
    assert!(receiver.try_recv().is_err());
    // once the request is processed, the room is gone
    registry.delete_room(&id);
    assert!(registry.get_room_for_id(id).is_none());
}

#[test]
fn handler_deletes_room_once_timer_fires() {
    let rt = tokio::runtime::Runtime::new().unwrap();
    let registry = SharedRegistry::new_with_timeout(1);
    let (mut handler, sender) = RoomDeletionHandler::new_with_registry(registry.clone());
    let id;
    {
        let _guard = rt.enter();
        id = registry.create_room(sender).unwrap();
    }
    assert!(registry.has_room(id));
    assert_eq!(registry.list_active_rooms().len(), 1);
    // blocks until the timer fires and the deletion request arrives
    let received = handler.handle_next();
    assert!(received);
    assert!(!registry.has_room(id));
    assert_eq!(registry.list_active_rooms().len(), 0);
}

#[test]
fn cancellation_prevents_deletion_request() {
    let rt = tokio::runtime::Runtime::new().unwrap();
    let (sender, mut receiver) = tokio::sync::mpsc::channel::<RoomId>(100);
    let mut registry: RoomRegistry<UuidRoomIdProvider> = RoomRegistry::new_with_timeout(1);
    let id;
    {
        let _guard = rt.enter();
        id = registry.create_room(sender).unwrap();
    }
    assert!(registry.cancel_room_deletion(&id));
    // after the original window would have elapsed, no request was ever sent
    // and the room is still present
    let full_window = {
        let _guard = rt.enter();
        tokio::time::sleep(Duration::from_millis(1500))
    };
    rt.block_on(full_window);
    assert!(receiver.try_recv().is_err());
    assert!(registry.get_room_for_id(id).is_some());
}

#[test]
fn cancelling_an_absent_room_reports_false() {
    let rt = tokio::runtime::Runtime::new().unwrap();
    let _guard = rt.enter();
    let mut registry: RoomRegistry<UuidRoomIdProvider> = RoomRegistry::new();
    assert!(!registry.cancel_room_deletion(&RoomId::from(5u128)));
    assert_eq!(registry.list_active_rooms().len(), 0);
}

#[test]
fn room_can_be_rescheduled_after_cancellation() {
    let rt = tokio::runtime::Runtime::new().unwrap();
    let (sender, mut receiver) = tokio::sync::mpsc::channel::<RoomId>(10);
    let id = RoomId::from(9u128);
    {
        let _guard = rt.enter();
        let mut room = Room::new_with_timeout(id, sender, 1);
        room.cancel_deletion();
        // cancelling again when no timer is armed is a no-op
        room.cancel_deletion();
        room.schedule_deletion();
        // dropping the room detaches the armed timer task; it still fires
    }
    let got = rt.block_on(receiver.recv());
    assert_eq!(got, Some(id));
}

#[test]
fn handler_stops_when_channel_closes() {
    let registry = SharedRegistry::new();
    let (mut handler, sender) = RoomDeletionHandler::new_with_registry(registry);
    drop(sender);
    // every sender is gone and the channel is drained: no request can ever
    // arrive again
    assert!(!handler.handle_next());
}
