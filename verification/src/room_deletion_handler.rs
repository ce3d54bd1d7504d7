//! Automatic idle room cleanup: a single long-lived consumer that drains the
//! deletion-request channel and removes the corresponding rooms from the
//! shared registry under its lock.

use crate::channel;
use crate::room_id::RoomId;
use crate::room_registry::SharedRegistry;
use vstd::prelude::*;

verus! {

/// The number of room deletion messages that can sit in the room deletion
/// channel before sending on it becomes blocking: a deliberate backpressure
/// valve, so that expiring timers wait rather than drop requests or grow
/// memory without bound.
pub const DEFAULT_DELETION_CHANNEL_BUFFER_SIZE: usize = 100;

/// Cleans up rooms within a given registry when their IDs are sent over the
/// deletion channel. All deletions funnel through this one consumer, which
/// acquires the registry's lock only for the brief removal itself.
pub struct RoomDeletionHandler {
    registry: SharedRegistry,
    receiver: tokio::sync::mpsc::Receiver<RoomId>,
}

impl RoomDeletionHandler {
    /// The shared registry this handler deletes from.
    pub closed spec fn spec_registry(&self) -> SharedRegistry {
        self.registry
    }

    /// Creates a new deletion handler for a provided registry, together with
    /// the sender half of the bounded deletion channel whose receiving end
    /// the handler owns; the sender is what newly created rooms are given.
    pub fn new_with_registry(registry: SharedRegistry) -> (pair: (
        Self,
        tokio::sync::mpsc::Sender<RoomId>,
    ))
        ensures
            pair.0.spec_registry() == registry,
    {
        let (sender, receiver) = channel::bounded_channel(DEFAULT_DELETION_CHANNEL_BUFFER_SIZE);
        (RoomDeletionHandler { registry, receiver }, sender)
    }

    /// Waits for the next deletion request and removes the room it names
    /// from the registry under the lock; whatever id arrives, removal is
    /// safe, since deletion is idempotent. Returns false once the channel is
    /// closed (every sender dropped) and drained, after which no request can
    /// ever arrive again. Must be driven from outside an asynchronous
    /// context; the host runtime loops over this until it reports false.
    pub fn handle_next(&mut self) -> (received: bool)
        ensures
            final(self).spec_registry() == old(self).spec_registry(),
    {
        match channel::blocking_recv(&mut self.receiver) {
            None => false,
            Some(room_id) => {
                self.registry.delete_room(&room_id);
                true
            },
        }
    }
}

} // verus!
