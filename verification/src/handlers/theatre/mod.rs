//! What the requests under one theatre do.

pub mod role;
pub mod screening;
pub mod ticket;
