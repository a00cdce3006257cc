//! Deterministic simulation core of a small multiplayer road-crossing game:
//! player state, the procedural map, the rules state machine, the rollback
//! timeline, and the decisions of the client and server loops.
//!
//! Everything here is a function of its arguments. Clocks, sockets, encoders
//! and drawing belong to the caller.

pub mod player_id_map;
pub mod game;
pub mod rng;
pub mod math;
pub mod map;
pub mod crossy_ruleset;
pub mod movement;
pub mod timeline;
pub mod timeline_laws;
pub mod reconciliation_laws;
pub mod interop;
pub mod time_sync;
pub mod frontend;
pub mod server;
pub mod client;

pub use game::CoordPos;
pub use game::GameState;
pub use game::Input;
pub use game::PlayerInputs;
pub use game::PlayerState;
pub use game::Pos;
pub use game::PreciseCoords;
pub use game::ALL_INPUTS;
pub use player_id_map::PlayerId;
pub use player_id_map::PlayerIdMap;
