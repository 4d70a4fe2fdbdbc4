//! The backend of a smart meter: it keeps user accounts and the sensor readings that
//! each user's device sends, and answers queries on them.
//!
//! `sql_actions` holds the two tables and their queries and updates; `handlers` decides
//! each request (a new account, a reading, a login, a deletion); `readings` reports a
//! user's readings; `laws` states what holds across requests. `password` and `clock_ids`
//! reach the argon2, uuid and chrono crates.
pub mod clock_ids;
pub mod handlers;
pub mod laws;
pub mod models;
pub mod password;
pub mod readings;
pub mod seq_facts;
pub mod sql_actions;
