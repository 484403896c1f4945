//! Builds the notification e-mails of the occurrence system: reads the
//! configuration, turns the occurrence records into text and HTML, and
//! prepares the sender and the recipients.
pub mod config_info;
pub mod db;
pub mod error;
pub mod formatacao;
pub mod leis;
pub mod message_builder;
pub mod models;
pub mod processo;
pub mod templating;
pub mod utilities;
