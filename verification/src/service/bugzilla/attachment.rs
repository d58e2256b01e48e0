//! Bug attachments.
pub mod create;
pub mod get;
pub mod get_item;
pub mod update;
pub mod search;
