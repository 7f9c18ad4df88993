//! Data access for a question-and-answer service: the domain records, the
//! identifier syntax, the decisions that each data-access operation takes
//! around its one storage statement, and an in-memory storage to run them
//! against.

pub mod identifier;
pub mod models;
pub mod persistance;
