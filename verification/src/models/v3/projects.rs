//! Operations scoped to one project: its scripts and its users.

pub mod scripts;
pub mod users;
