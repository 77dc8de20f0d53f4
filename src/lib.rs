//! Session lifecycle for a turn-based exploration-and-battle game.
//!
//! The game engine itself (map movement, combat, resource decoding) is an
//! opaque collaborator: its values are carried through the type parameters of
//! [`Session`], and every engine outcome is handed to the orchestrator as a
//! plain argument. What this crate proves is the sequencing of the four
//! single-occupancy slots (game, warrior, warrior deck, battle).

pub mod error;
pub mod model;
pub mod session;
pub mod laws;

pub use error::{SessionError, Slot};
pub use model::{Point, SessionModel};
pub use session::{create_game, create_standalone_battle, Session, MoveRequest, SessionRequest, WasmBattle, WasmGame, WasmMap};

