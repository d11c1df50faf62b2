//! The use cases: one operation per verb and entity kind, each with its own
//! closed set of errors.

pub mod area_of_life;
pub mod thought;
