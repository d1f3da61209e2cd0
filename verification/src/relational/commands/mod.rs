//! The commands of the relational store, one answer at a time.

pub mod answering;
pub mod catching_up;
pub mod following;
pub mod migration;
pub mod moderation;
pub mod opening;
pub mod receipts;
pub mod replying;
pub mod saving;
