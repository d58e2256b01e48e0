//! User accounts: creation, lookup and updates.
pub mod create;
pub mod get;
pub mod update;
