//! Small clean-code exercises: a transaction ledger, user validation,
//! delivery messages and a few interface-design samples, each with its
//! behaviour stated as contracts.

pub mod amount;
pub mod athletes;
pub mod birds;
pub mod databases;
pub mod delivery;
pub mod digits;
pub mod members;
pub mod printers;
pub mod storage;
pub mod transactions;
pub mod users;
