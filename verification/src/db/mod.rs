//! The occurrence database: its rows and the texts taken from them.
pub mod chunks;
pub mod models;
