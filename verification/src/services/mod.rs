//! The tables of the platform as the rules see them: plain rows, read and
//! changed by exact queries.

pub mod bridge_role;
pub mod role;
pub mod user;
