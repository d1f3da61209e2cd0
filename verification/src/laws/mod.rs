//! What holds of the library as a whole.

pub mod agreement;
pub mod answers;
pub mod asking;
pub mod commanding;
pub mod commanding_events;
pub mod commanding_marking;
pub mod commanding_writing;
pub mod content;
pub mod conversing;
pub mod delivering;
pub mod desk;
pub mod escaping;
pub mod finding;
pub mod following;
pub mod gathering;
pub mod holding;
pub mod keeping;
pub mod labels;
pub mod lists;
pub mod migrating;
pub mod order;
pub mod pages;
pub mod painting;
pub mod presenting;
pub mod reacting;
pub mod reading;
pub mod refusing;
pub mod rendering;
pub mod saving;
pub mod showing;
pub mod sparing;
pub mod state;
pub mod state_editing;
pub mod state_personal;
pub mod state_writing;
pub mod storing;
pub mod summary;
pub mod tables;
pub mod telling;
pub mod wording;
pub mod writing;
