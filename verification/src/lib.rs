//! The calibration game as a verified state machine.
//!
//! A player stakes points against the house, chooses a character, walks six
//! mazes, one for each sense, and leaves. Whoever leaves with all six senses
//! recorded and a total score within the cap wins the stakes, which an
//! outside hub holds meanwhile, and is entered in the leaderboard.
//!
//! [`contract::SaBirthContract`] is the game. [`model::State`] says what it
//! keeps, and what each operation makes of it; [`laws`] proves what follows.

pub mod address;
pub mod contract;
pub mod error;
pub mod events;
pub mod hub;
pub mod laws;
pub mod leaderboard;
pub mod model;
pub mod payload;
pub mod records;
pub mod senses;
pub mod snapshot;
pub mod store;
pub mod validator;

pub use address::{Address, AddressKind};
pub use contract::SaBirthContract;
pub use error::Error;
pub use events::{CompleteEvent, OverloadEvent, SenseCompletedEvent, StartEvent};
pub use hub::{Escrow, GameHub, HubRequest, RecordingHub};
pub use model::ExitNotice;
pub use records::{CalibrationSession, DataKey, LeaderboardEntry, SenseResult};
pub use snapshot::Snapshot;
