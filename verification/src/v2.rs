//! The resources of version 2 of the interface.

pub mod application_role;
pub mod user;
