//! Turns the primitive records of a map extract into mediums: named linear
//! features with their classification, direction and resolved positions.
pub mod classify;
pub mod counts;
pub mod medium;
pub mod partial;
pub mod resolve;
pub mod tags;
