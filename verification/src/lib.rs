//! A small users service: the record it serves, the settings its database
//! pool is made from, and the decisions its two request handlers take.

pub mod config;
pub mod exchange;
pub mod laws;
pub mod model;
pub mod pool;
pub mod reply;
pub mod text;
pub mod user;
