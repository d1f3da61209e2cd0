//! A forum core: an in-memory store, the decisions of a relational store, text summaries, and
//! server-rendered pages.

use vstd::prelude::*;

pub mod calendar;
pub mod laws;
pub mod model;
pub mod relational;
pub mod rows;
pub mod store;
pub mod text;
pub mod texts;
pub mod textsim;
pub mod view_model;
pub mod views;

verus! {

} // verus!
