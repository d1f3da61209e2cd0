//! The relational store: the statements it runs and what it decides on the rows it reads.

pub mod command;
pub mod commands;
pub mod decoding;
pub mod moderating;
pub mod personal;
pub mod queries;
pub mod reads;
pub mod schema;
pub mod sql;
pub mod statement;
pub mod writing;
