//! A drill on the three kinds of fractions: proper, improper and apparent.
//!
//! The library holds the two parts of the drill that carry logic: the
//! generator of fractions that belong to exactly one kind, and the session
//! that walks from one exercise to the next and keeps the score.

pub mod divisors;
pub mod fraction;
pub mod generator;
pub mod kinds;
mod random;
pub mod session;

pub use crate::fraction::Fraction;
pub use crate::generator::generate;
pub use crate::kinds::{Choice, Ftype};
pub use crate::session::{Effect, Mark, Message, Mode, State, TransitionError};
