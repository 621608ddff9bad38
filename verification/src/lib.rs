//! The session side of a twenty-questions guessing game: the answers, themes
//! and languages a player can choose, the guesses the game hands back, the
//! failures a round trip can end in, and the session that keeps count of the
//! questions asked.
//!
//! The library never talks to the game service itself. A session says which
//! request is due, the caller performs it, and the session takes the outcome
//! and moves on.

pub mod enums;
pub mod error;
pub mod models;
pub mod session;

pub use crate::enums::{Answer, Language, Theme};
pub use crate::error::{EngineError, Error, ErrorKind, UpdateFault};
pub use crate::models::Guess;
pub use crate::session::{Akinator, MoveReply, Phase, Request, StartReply};
