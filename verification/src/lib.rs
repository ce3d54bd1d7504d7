//! Lifecycle management for ephemeral multiplayer rooms: unique-identifier
//! allocation under collision, a registry of live rooms behind a verified
//! lock, and a cancellable idle-timeout deletion pipeline.

pub mod channel;
pub mod player;
pub mod room;
pub mod room_deletion_handler;
pub mod room_id;
pub mod room_registry;
pub mod server_config;

pub use player::{Player, PlayerId};
pub use room::Room;
pub use room_id::RoomId;
pub use room_deletion_handler::RoomDeletionHandler;
pub use room_registry::{ProvideRoomId, RoomCreationError, RoomRegistry, SharedRegistry, UuidRoomIdProvider};
