//! Rooms: entities owning a set of player sessions and a cancellable
//! self-scheduled idle-deletion timer.

use crate::player::Player;
use crate::room_id::RoomId;
use futures::future::FutureExt;
use vstd::prelude::*;

verus! {

/// The default timeout in seconds before an idle room will request cleanup.
pub const DEFAULT_DELETION_TIMEOUT_SECONDS: u64 = 30;

#[verifier::external_type_specification]
#[verifier::external_body]
#[verifier::reject_recursive_types(T)]
pub struct ExJoinHandle<T>(tokio::task::JoinHandle<T>);

#[verifier::external_type_specification]
#[verifier::external_body]
pub struct ExJoinError(tokio::task::JoinError);

/// Relies on `tokio::task::JoinHandle::abort`: requests cancellation of the
/// spawned task; it does nothing if the task has already completed.
pub assume_specification<T>[ tokio::task::JoinHandle::<T>::abort ](
    handle: &tokio::task::JoinHandle<T>,
);

/// Relies on `tokio::task::spawn`, `tokio::time::sleep`,
/// `tokio::sync::mpsc::Sender::reserve_owned` and `OwnedPermit::send` (plus
/// `Sender::clone` to hand the spawned task its own sender): arms a
/// background timer that suspends for `delay_secs` seconds and then sends
/// `id` on the channel, waiting while the channel is full rather than
/// dropping the request, and returns the handle of the spawned task. The
/// send outcome is concurrent and unobservable here, so nothing is claimed
/// about it. tokio panics when this is called from outside a runtime;
/// callers must run within one.
#[verifier::external_body]
fn spawn_deletion_timer(
    sender: &tokio::sync::mpsc::Sender<RoomId>,
    id: RoomId,
    delay_secs: u64,
) -> (handle: tokio::task::JoinHandle<()>)
{
    let sender = sender.clone();
    tokio::task::spawn(
        tokio::time::sleep(std::time::Duration::from_secs(delay_secs)).map(
            move |_| sender.reserve_owned(),
        ).flatten().map(move |reserved| match reserved {
            Ok(permit) => {
                permit.send(id);
            },
            Err(_) => {},
        }),
    )
}

/// A room maintains a collection of players and is responsible for
/// requesting its own deletion once it has been idle for too long.
///
/// The deletion timer is a resource with its own lifecycle: armed at
/// construction, it either fires once (posting the room's id on the deletion
/// channel) or is cancelled; re-arming aborts and replaces the previous
/// timer.
#[derive(Debug)]
pub struct Room {
    id: RoomId,
    deletion_channel: tokio::sync::mpsc::Sender<RoomId>,
    deletion_handle: Option<tokio::task::JoinHandle<()>>,
    players: Vec<Player>,
    idle_timeout_secs: u64,
}

impl Room {
    /// The 128-bit identifier of this room.
    pub closed spec fn spec_id(&self) -> u128 {
        self.id@
    }

    /// Whether a deletion timer handle is currently held.
    pub closed spec fn timer_armed(&self) -> bool {
        self.deletion_handle is Some
    }

    /// The identifiers of the players currently in the room.
    pub closed spec fn spec_players(&self) -> Seq<u128> {
        self.players@.map_values(|p: Player| p.id@)
    }

    /// The idle window, in seconds, after which the room requests deletion.
    pub closed spec fn idle_timeout(&self) -> u64 {
        self.idle_timeout_secs
    }

    /// The sender half over which this room requests its own deletion.
    pub closed spec fn spec_sender(&self) -> tokio::sync::mpsc::Sender<RoomId> {
        self.deletion_channel
    }

    /// Creates a new room with the default idle window and immediately arms
    /// its idle-deletion timer.
    pub fn new(id: RoomId, deletion_channel: tokio::sync::mpsc::Sender<RoomId>) -> (room: Room)
        ensures
            room.spec_id() == id@,
            room.timer_armed(),
            room.spec_players() == Seq::<u128>::empty(),
            room.idle_timeout() == DEFAULT_DELETION_TIMEOUT_SECONDS,
            room.spec_sender() == deletion_channel,
    {
        Self::new_with_timeout(id, deletion_channel, DEFAULT_DELETION_TIMEOUT_SECONDS)
    }

    /// Creates a new room whose idle window is `idle_timeout_secs` seconds
    /// and immediately arms its idle-deletion timer.
    pub fn new_with_timeout(
        id: RoomId,
        deletion_channel: tokio::sync::mpsc::Sender<RoomId>,
        idle_timeout_secs: u64,
    ) -> (room: Room)
        ensures
            room.spec_id() == id@,
            room.timer_armed(),
            room.spec_players() == Seq::<u128>::empty(),
            room.idle_timeout() == idle_timeout_secs,
            room.spec_sender() == deletion_channel,
    {
        let mut this = Room {
            id,
            deletion_channel,
            deletion_handle: None,
            players: Vec::new(),
            idle_timeout_secs,
        };
        this.schedule_deletion();
        this
    }

    /// The identifier of this room.
    pub fn id(&self) -> (id: RoomId)
        ensures
            id@ == self.spec_id(),
    {
        self.id
    }

    /// Schedules room deletion: arms a timer that will request cleanup once
    /// the idle window elapses, and retains its handle so that the cleanup
    /// can later be aborted. Re-arming replaces rather than stacks: a
    /// previously armed timer is aborted first, so at most one timer is live
    /// for the room at any time.
    pub fn schedule_deletion(&mut self)
        ensures
            final(self).timer_armed(),
            final(self).spec_id() == old(self).spec_id(),
            final(self).spec_players() == old(self).spec_players(),
            final(self).idle_timeout() == old(self).idle_timeout(),
            final(self).spec_sender() == old(self).spec_sender(),
    {
        self.cancel_deletion();
        let handle = spawn_deletion_timer(&self.deletion_channel, self.id, self.idle_timeout_secs);
        self.deletion_handle = Some(handle);
    }

    /// Cancels this room's scheduled deletion if one is armed, so that no
    /// deletion request will be sent for that arming in the future; a no-op
    /// when no timer is armed. A timer that has already fired cannot be
    /// retracted: its request may already be queued.
    pub fn cancel_deletion(&mut self)
        ensures
            !final(self).timer_armed(),
            final(self).spec_id() == old(self).spec_id(),
            final(self).spec_players() == old(self).spec_players(),
            final(self).idle_timeout() == old(self).idle_timeout(),
            final(self).spec_sender() == old(self).spec_sender(),
    {
        match &self.deletion_handle {
            None => {},
            Some(handle) => {
                handle.abort();
            },
        }
        self.deletion_handle = None;
    }
}

impl PartialEq for Room {
    /// Two rooms are the same room exactly when their identifiers agree.
    fn eq(&self, other: &Self) -> bool {
        self.id == other.id
    }
}

impl vstd::std_specs::cmp::PartialEqSpecImpl for Room {
    open spec fn obeys_eq_spec() -> bool {
        true
    }

    open spec fn eq_spec(&self, other: &Self) -> bool {
        self.spec_id() == other.spec_id()
    }
}

} // verus!
