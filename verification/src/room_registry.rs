//! The room registry: the authoritative table of live rooms. It owns
//! creation (with bounded collision retry), lookup, enumeration and removal.

use crate::room::{Room, DEFAULT_DELETION_TIMEOUT_SECONDS};
use crate::room_id::{uuid_text, RoomId};
use core::marker::PhantomData;
use std::collections::HashMap;
use std::sync::Arc;
use vstd::rwlock::RwLock;
use vstd::prelude::*;
use vstd::std_specs::iter::IteratorSpec;

verus! {

/// The maximum number of times that the registry will redraw a candidate
/// room ID before failing with a [`RoomCreationError`].
pub const MAX_CREATE_ROOM_ID_ATTEMPTS: u8 = 5;

/// Provides room ids that can be used for new room creation.
///
/// Implementors should ideally provide uniformly distributed identifiers to
/// avoid collisions within the room registry; the provider has no knowledge
/// of the registry's contents. Collision detection is strictly the
/// registry's concern. A provider that always yields one fixed value (a
/// deterministic test double) can say so through the two spec functions, and
/// the registry's contract then pins `create_room`'s outcome for it; of any
/// other provider nothing is assumed.
pub trait ProvideRoomId {
    /// Whether every id this provider ever yields is the one fixed value
    /// named by [`Self::provided_id`].
    spec fn is_deterministic() -> bool;

    /// The fixed value a deterministic provider always yields; meaningless
    /// when [`Self::is_deterministic`] is false.
    spec fn provided_id() -> u128;

    /// Provides a new room id when called.
    fn provide_id() -> (id: RoomId)
        ensures
            Self::is_deterministic() ==> id@ == Self::provided_id(),
    ;
}

/// The default provider, drawing ids from a uniform 128-bit random space.
pub struct UuidRoomIdProvider;

/// Relies on `uuid::Uuid::new_v4` and `Uuid::as_u128`: a freshly drawn
/// random identifier value. The result is random, so nothing is claimed
/// about it.
#[verifier::external_body]
fn random_uuid_value() -> u128 {
    uuid::Uuid::new_v4().as_u128()
}

impl ProvideRoomId for UuidRoomIdProvider {
    open spec fn is_deterministic() -> bool {
        false
    }

    open spec fn provided_id() -> u128 {
        0
    }

    fn provide_id() -> (id: RoomId) {
        RoomId(random_uuid_value())
    }
}

/// Enumerates the errors that can occur within the context of room creation.
#[derive(Debug, PartialEq, Eq, Structural, Copy, Clone)]
pub enum RoomCreationError {
    /// A unique identifier couldn't be found after the given number of
    /// redraws. If this occurs, look at the provider in use.
    UnableToCreateIdentifier(u8),
}

/// RoomRegistry maintains the mapping from room identifier values to live
/// rooms, together with the idle window handed to each new room.
///
/// Its model is the mapping itself; well-formedness says that every key in
/// the mapping equals the id of the room stored under it, so the mapping can
/// never hold two entries with equal ids.
#[derive(Debug)]
pub struct RoomRegistry<P: ProvideRoomId> {
    rooms: HashMap<u128, Room>,
    idle_timeout_secs: u64,
    provider: PhantomData<P>,
}

impl<P: ProvideRoomId> View for RoomRegistry<P> {
    type V = Map<u128, Room>;

    closed spec fn view(&self) -> Map<u128, Room> {
        self.rooms@
    }
}

impl<P: ProvideRoomId> RoomRegistry<P> {
    /// Every key in the mapping equals the id of the room stored under it.
    pub open spec fn wf(&self) -> bool {
        forall|k: u128| #[trigger] self@.contains_key(k) ==> self@[k].spec_id() == k
    }

    /// The idle window, in seconds, handed to each newly created room.
    pub closed spec fn idle_timeout(&self) -> u64 {
        self.idle_timeout_secs
    }

    /// Creates a new instance with no rooms and the default idle window.
    pub fn new() -> (registry: Self)
        ensures
            registry@ == Map::<u128, Room>::empty(),
            registry.wf(),
            registry.idle_timeout() == DEFAULT_DELETION_TIMEOUT_SECONDS,
    {
        Self::new_with_timeout(DEFAULT_DELETION_TIMEOUT_SECONDS)
    }

    /// Creates a new instance with no rooms whose rooms will request
    /// deletion after `idle_timeout_secs` seconds of idleness.
    pub fn new_with_timeout(idle_timeout_secs: u64) -> (registry: Self)
        ensures
            registry@ == Map::<u128, Room>::empty(),
            registry.wf(),
            registry.idle_timeout() == idle_timeout_secs,
    {
        RoomRegistry { rooms: HashMap::new(), idle_timeout_secs, provider: PhantomData }
    }

    /// Gets a reference to the room with the given ID if it exists: a pure
    /// lookup with no side effects.
    pub fn get_room_for_id(&self, id: RoomId) -> (room: Option<&Room>)
        ensures
            match room {
                Some(r) => self@.contains_key(id@) && *r == self@[id@],
                None => !self@.contains_key(id@),
            },
    {
        self.rooms.get(&id.0)
    }

    /// Creates a new room and supplies it with a channel over which it can
    /// request its own deletion.
    ///
    /// Draws a candidate id from the provider `P`; as long as the candidate
    /// collides with an existing entry, redraws, up to
    /// [`MAX_CREATE_ROOM_ID_ATTEMPTS`] redraws. If the last redraw still
    /// collides, fails with [`RoomCreationError::UnableToCreateIdentifier`]
    /// and mutates nothing. On success the new room's id was absent, the new
    /// room is stored under it with its timer armed, and nothing else
    /// changes. Failure can only come from collisions, so on an empty table
    /// creation always succeeds; and for a deterministic provider the
    /// outcome is decided: its value fresh means that room is created, its
    /// value present means the bounded retry is exhausted.
    #[verifier::loop_isolation(false)]
    pub fn create_room(
        &mut self,
        deletion_sender: tokio::sync::mpsc::Sender<RoomId>,
    ) -> (result: Result<RoomId, RoomCreationError>)
        requires
            old(self).wf(),
        ensures
            final(self).wf(),
            final(self).idle_timeout() == old(self).idle_timeout(),
            match result {
                Ok(id) => {
                    &&& !old(self)@.contains_key(id@)
                    &&& final(self)@ == old(self)@.insert(id@, final(self)@[id@])
                    &&& final(self)@[id@].spec_id() == id@
                    &&& final(self)@[id@].timer_armed()
                    &&& final(self)@[id@].spec_players() == Seq::<u128>::empty()
                    &&& final(self)@[id@].idle_timeout() == old(self).idle_timeout()
                    &&& final(self)@[id@].spec_sender() == deletion_sender
                },
                Err(e) => {
                    &&& final(self)@ == old(self)@
                    &&& e == RoomCreationError::UnableToCreateIdentifier(
                        MAX_CREATE_ROOM_ID_ATTEMPTS,
                    )
                },
            },
            old(self)@.dom() == Set::<u128>::empty() ==> result is Ok,
            P::is_deterministic() && !old(self)@.contains_key(P::provided_id()) ==> (result
                matches Ok(id) && id@ == P::provided_id()),
            P::is_deterministic() && old(self)@.contains_key(P::provided_id()) ==> result is Err,
    {
        let mut id = P::provide_id();
        let mut attempts: u8 = 0;
        while self.rooms.contains_key(&id.0)
            invariant
                attempts <= MAX_CREATE_ROOM_ID_ATTEMPTS,
                *self == *old(self),
                P::is_deterministic() ==> id@ == P::provided_id(),
            decreases MAX_CREATE_ROOM_ID_ATTEMPTS - attempts,
        {
            if attempts >= MAX_CREATE_ROOM_ID_ATTEMPTS {
                return Err(
                    RoomCreationError::UnableToCreateIdentifier(MAX_CREATE_ROOM_ID_ATTEMPTS),
                );
            }
            attempts = attempts + 1;
            id = P::provide_id();
        }
        let room = Room::new_with_timeout(id, deletion_sender, self.idle_timeout_secs);
        self.rooms.insert(id.0, room);
        proof {
            assert forall|k: u128| #[trigger] self@.contains_key(k) implies self@[k].spec_id()
                == k by {
                if k != id@ {
                    assert(old(self)@.contains_key(k));
                }
            }
        }
        Ok(id)
    }

    /// Lists the canonical text renderings of the ids of the rooms that
    /// currently exist in the registry: one entry per live room, in some
    /// enumeration order of the table.
    pub fn list_active_rooms(&self) -> (ids: Vec<String>)
        ensures
            exists|ks: Seq<u128>|
                {
                    &&& ks.no_duplicates()
                    &&& ks.to_set() == self@.dom()
                    &&& ids@.len() == ks.len()
                    &&& forall|i: int|
                        0 <= i < ks.len() ==> (#[trigger] ids@[i])@ == uuid_text(ks[i])
                },
    {
        let mut out: Vec<String> = Vec::new();
        let ghost mut seen: Seq<u128> = Seq::empty();
        for k in iter: self.rooms.keys()
            invariant
                seen =~= iter.seq().take(iter.index()).unref(),
                out@.len() == seen.len(),
                forall|i: int| 0 <= i < seen.len() ==> (#[trigger] out@[i])@ == uuid_text(seen[i]),
        {
            proof {
                seen = seen.push(*k);
            }
            out.push(RoomId(*k).to_text());
        }
        proof {
            let full = vstd::std_specs::hash::spec_keys_iter(&self.rooms).remaining();
            assert(seen =~= full.unref());
        }
        out
    }

    /// Cancels the scheduled deletion of the room with the provided ID, if
    /// that room exists: the policy hook for resetting the idle clock on
    /// activity. Returns whether a room with that id was present. The table
    /// keeps the same rooms; only the addressed room's timer is disarmed.
    pub fn cancel_room_deletion(&mut self, id: &RoomId) -> (cancelled: bool)
        ensures
            cancelled == old(self)@.contains_key(id@),
            final(self).idle_timeout() == old(self).idle_timeout(),
            final(self)@.contains_key(id@) == old(self)@.contains_key(id@),
            forall|k: u128|
                k != id@ ==> (#[trigger] final(self)@.contains_key(k)) == old(
                    self,
                )@.contains_key(k),
            forall|k: u128|
                k != id@ && #[trigger] final(self)@.contains_key(k) ==> final(self)@[k] == old(
                    self,
                )@[k],
            old(self)@.contains_key(id@) ==> {
                let before = old(self)@[id@];
                let after = final(self)@[id@];
                &&& !after.timer_armed()
                &&& after.spec_id() == before.spec_id()
                &&& after.spec_players() == before.spec_players()
                &&& after.idle_timeout() == before.idle_timeout()
                &&& after.spec_sender() == before.spec_sender()
            },
    {
        match self.rooms.remove(&id.0) {
            None => false,
            Some(mut room) => {
                room.cancel_deletion();
                self.rooms.insert(id.0, room);
                true
            },
        }
    }

    /// Deletes the room with the provided ID from the registry if it exists;
    /// a no-op when the id is absent, so deletion is idempotent and never
    /// errors.
    pub fn delete_room(&mut self, id: &RoomId)
        ensures
            final(self)@ == old(self)@.remove(id@),
            final(self).idle_timeout() == old(self).idle_timeout(),
    {
        self.rooms.remove(&id.0);
    }
}

/// The table after the room insertions in `steps`, applied left to right:
/// the model of a run of successful `create_room` calls starting from the
/// table `m0`.
pub open spec fn registry_after(m0: Map<u128, Room>, steps: Seq<(u128, Room)>) -> Map<u128, Room>
    decreases steps.len(),
{
    if steps.len() == 0 {
        m0
    } else {
        registry_after(m0, steps.drop_last()).insert(steps.last().0, steps.last().1)
    }
}

/// Whether each step's id was absent from the table at the moment it was
/// inserted — exactly what `create_room` ensures of each successful call.
pub open spec fn creations_fresh(m0: Map<u128, Room>, steps: Seq<(u128, Room)>) -> bool {
    forall|i: int|
        0 <= i < steps.len() ==> !(#[trigger] registry_after(
            m0,
            steps.take(i),
        )).contains_key(steps[i].0)
}

/// An id inserted at step `i` is still present after any longer prefix of
/// the run: insertions never remove keys.
proof fn lemma_creation_persists(m0: Map<u128, Room>, steps: Seq<(u128, Room)>, i: int, l: int)
    requires
        0 <= i < l <= steps.len(),
    ensures
        registry_after(m0, steps.take(l)).contains_key(steps[i].0),
    decreases l,
{
    assert(steps.take(l).drop_last() =~= steps.take(l - 1));
    assert(steps.take(l).last() == steps[l - 1]);
    if i < l - 1 {
        lemma_creation_persists(m0, steps, i, l - 1);
    }
}

/// Law (uniqueness): across any run of successful `create_room` calls
/// against one registry instance — each call's ensures says its id was fresh
/// and the table grew by exactly that entry — the returned ids are pairwise
/// distinct, and each of them is a key of the table afterwards, where
/// `get_room_for_id` finds it.
pub proof fn lemma_create_room_uniqueness(m0: Map<u128, Room>, steps: Seq<(u128, Room)>)
    requires
        creations_fresh(m0, steps),
    ensures
        forall|i: int, j: int| 0 <= i < j < steps.len() ==> steps[i].0 != steps[j].0,
        forall|i: int|
            0 <= i < steps.len() ==> registry_after(m0, steps).contains_key(#[trigger] steps[i].0),
{
    assert forall|i: int, j: int| 0 <= i < j < steps.len() implies steps[i].0 != steps[j].0 by {
        lemma_creation_persists(m0, steps, i, j);
    }
    assert forall|i: int|
        0 <= i < steps.len() implies registry_after(m0, steps).contains_key(
        #[trigger] steps[i].0,
    ) by {
        lemma_creation_persists(m0, steps, i, steps.len() as int);
        assert(steps.take(steps.len() as int) =~= steps);
    }
}

/// Law (idempotent deletion): removing an absent id leaves the table
/// unchanged, and removing the same id twice is the same as removing it
/// once — `delete_room` ensures that the new table is exactly the old one
/// with the given id removed, so this carries over to it.
pub proof fn lemma_delete_room_idempotent(m: Map<u128, Room>, id: u128)
    ensures
        !m.contains_key(id) ==> m.remove(id) == m,
        m.remove(id).remove(id) == m.remove(id),
{
    if !m.contains_key(id) {
        assert(m.remove(id) =~= m);
    }
    assert(m.remove(id).remove(id) =~= m.remove(id));
}

/// The lock around the shared room table.
pub type RegistryLock = RwLock<
    RoomRegistry<UuidRoomIdProvider>,
    spec_fn(RoomRegistry<UuidRoomIdProvider>) -> bool,
>;

/// The invariant every registry stored behind the shared lock satisfies.
pub open spec fn shared_registry_inv() -> spec_fn(RoomRegistry<UuidRoomIdProvider>) -> bool {
    |r: RoomRegistry<UuidRoomIdProvider>| r.wf()
}

/// Relies on `std::sync::Arc::clone`: another handle to the same lock.
#[verifier::external_body]
fn clone_arc_lock(lock: &Arc<RegistryLock>) -> (cloned: Arc<RegistryLock>)
    ensures
        cloned == *lock,
{
    Arc::clone(lock)
}

/// The room table behind one exclusive lock, shared by every concurrent
/// caller: the whole-table lock is the coarse-grained mutual exclusion the
/// registry is designed around. All mutation and lookup goes through it, and
/// the lock's invariant keeps the table well-formed in every reachable
/// state, so acquiring the lock can never fail.
pub struct SharedRegistry {
    inner: Arc<RegistryLock>,
}

impl SharedRegistry {
    #[verifier::type_invariant]
    spec fn wf(&self) -> bool {
        self.inner.pred() == shared_registry_inv()
    }

    /// Creates a shared, initially empty room table with the default idle
    /// window.
    pub fn new() -> Self {
        let registry = RoomRegistry::<UuidRoomIdProvider>::new();
        let lock = RegistryLock::new(registry, Ghost(shared_registry_inv()));
        SharedRegistry { inner: Arc::new(lock) }
    }

    /// Creates a shared, initially empty room table whose rooms will request
    /// deletion after `idle_timeout_secs` seconds of idleness.
    pub fn new_with_timeout(idle_timeout_secs: u64) -> Self {
        let registry = RoomRegistry::<UuidRoomIdProvider>::new_with_timeout(idle_timeout_secs);
        let lock = RegistryLock::new(registry, Ghost(shared_registry_inv()));
        SharedRegistry { inner: Arc::new(lock) }
    }

    /// Creates a room in the shared table under the lock, handing it the
    /// given deletion-request sender. Concurrent owners may mutate the table
    /// between calls, so only the error case is pinned down: on failure
    /// nothing was inserted and the error reports the bounded-retry limit.
    pub fn create_room(&self, deletion_sender: tokio::sync::mpsc::Sender<RoomId>) -> (result:
        Result<RoomId, RoomCreationError>)
        ensures
            result matches Err(e) ==> e == RoomCreationError::UnableToCreateIdentifier(
                MAX_CREATE_ROOM_ID_ATTEMPTS,
            ),
    {
        proof {
            use_type_invariant(self);
        }
        let (mut registry, handle) = self.inner.acquire_write();
        let result = registry.create_room(deletion_sender);
        handle.release_write(registry);
        result
    }

    /// Removes the room with the given id from the shared table under the
    /// lock; a no-op when the id is absent.
    pub fn delete_room(&self, id: &RoomId) {
        proof {
            use_type_invariant(self);
        }
        let (mut registry, handle) = self.inner.acquire_write();
        registry.delete_room(id);
        proof {
            assert forall|k: u128| #[trigger] registry@.contains_key(k) implies registry@[k].spec_id() == k by {}
        }
        handle.release_write(registry);
    }

    /// Whether a room with the given id currently exists in the shared
    /// table. The answer is a snapshot: concurrent owners may change it.
    pub fn has_room(&self, id: RoomId) -> bool {
        proof {
            use_type_invariant(self);
        }
        let read_handle = self.inner.acquire_read();
        let found = read_handle.borrow().get_room_for_id(id).is_some();
        read_handle.release_read();
        found
    }

    /// Lists the canonical text renderings of the ids of the rooms in the
    /// shared table: a snapshot enumeration, one entry per room live at the
    /// moment the lock was held, each the rendering of a distinct id.
    pub fn list_active_rooms(&self) -> (ids: Vec<String>)
        ensures
            exists|ks: Seq<u128>|
                {
                    &&& ks.no_duplicates()
                    &&& ids@.len() == ks.len()
                    &&& forall|i: int|
                        0 <= i < ks.len() ==> (#[trigger] ids@[i])@ == uuid_text(ks[i])
                },
    {
        proof {
            use_type_invariant(self);
        }
        let read_handle = self.inner.acquire_read();
        let ids = read_handle.borrow().list_active_rooms();
        read_handle.release_read();
        ids
    }
}

impl Clone for SharedRegistry {
    /// A further owner of the same shared table.
    fn clone(&self) -> (other: Self)
        ensures
            other == *self,
    {
        proof {
            use_type_invariant(self);
        }
        SharedRegistry { inner: clone_arc_lock(&self.inner) }
    }
}

} // verus!
