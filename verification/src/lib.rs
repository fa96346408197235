//! Persists a player's game state as a flat sequence of `u64` words.
//!
//! The core is a bidirectional codec between a structured [`PlayerData`]
//! record and its flat word representation, plus the entity wrapper
//! [`Player`] that owns a decoded payload and persists it, and the
//! [`Settle`] operation that applies a reward and writes the record back.

mod cursor;
mod display;
mod entity;
mod player;
mod storage;

pub use cursor::WordCursor;
pub use display::decimal_seq;
pub use display::digit_char;
pub use display::to_display_form;
pub use display::u64_to_decimal;
pub use entity::CombatPlayer;
pub use entity::Player;
pub use entity::Settle;
pub use entity::settled_balance;
pub use player::PlayerData;
pub use player::decoded_balance;
pub use player::decoded_inventory;
pub use player::decoded_placed;
pub use player::decoded_power;
pub use player::decoded_previous;
pub use player::lemma_round_trip;
pub use player::record_len;
pub use storage::StorageData;
