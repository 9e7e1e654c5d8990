//! World model for a text-driven interactive-fiction engine.
//!
//! A world is a graph of rooms connected by directional exits and populated
//! with items that may nest inside one another.  A player holds an inventory
//! and at most one item "in hand".  The transfer operations move a single
//! item between a room, the inventory, and the hand while preserving the
//! rule that exactly one container owns an item at a time.
//!
//! All text shown to the user is computed here as plain `String` lines; an
//! unverified presentation layer is expected to hand them to the narrator.

pub mod model;
pub mod present;
pub mod transfer;

pub use model::Directions;
pub use model::Exit;
pub use model::Item;
pub use model::OpenState;
pub use model::Player;
pub use model::Room;
pub use present::examine_item;
pub use present::room_enter;
pub use present::view_inventory;
pub use transfer::TransferError;
pub use transfer::check_inv_contains;
pub use transfer::drop_held_item;
pub use transfer::move_item_to_hand;
pub use transfer::take_from_room;
