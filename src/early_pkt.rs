//! The early-packet map and its mailboxes.
pub mod mailbox;
pub mod map;
