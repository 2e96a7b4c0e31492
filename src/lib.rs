//! A virtual 3x3x3 twisty puzzle: move notation, slice turns over an arena of
//! pieces, and the derivation of the 54-facelet puzzle state that a solver reads.
//!
//! Geometry is held in exact fixed-point integers (see `geometry`), so that grid
//! snapping, slice membership and facelet mapping are all proved; the animated
//! angle of a turn in progress is presentation and is derived from the turn's
//! progress by the caller.

pub mod notation;
pub mod geometry;
pub mod facelets;
pub mod validation;
pub mod cube;
pub mod palette;
pub mod queue;
