//! State and decision logic behind the pages of a small reactive web demo:
//! the keyed entry list, the two counters, the upload and bound forms, the
//! todo request, the pet search and the age field.

pub mod entries;
pub mod counter;
pub mod todo;
pub mod search;
pub mod forms;
pub mod age;
