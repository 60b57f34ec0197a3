//! A discrete, reversible model of a mechanical ring-and-valve
//! disentanglement puzzle.
//!
//! The puzzle consists of a fixed frame, a vertically sliding valve half
//! (the yoke) and two rings that rotate on a six-position cyclic track and
//! slide vertically. Every move is checked for collisions before it is
//! applied, and an undo/redo history replays moves by their exact inverses.

pub mod geometry;
pub mod moves;
pub mod point;
pub mod record;
pub mod rings;
pub mod session;
pub mod valve;

pub use geometry::{HanayamaHalf, ValveHalf};
pub use moves::{Move, PieceSet, RingDirection, VerticalDirection, VerticalPieces};
pub use point::{Inside, ModPoint, Outside, Vec2};
pub use record::Record;
pub use session::{Outcome, State};
pub use rings::{InnerRing, OuterRing};
pub use valve::Valve;
