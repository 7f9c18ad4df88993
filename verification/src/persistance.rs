//! The two data-access components and the storage they work against.

pub mod answers_dao;
pub mod memory;
pub mod questions_dao;
pub mod tables;
