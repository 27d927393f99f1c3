//! Planning and checking logic of an S3 command-line client: addresses,
//! commands, request targets, signed requests and listings.
pub mod text;
pub mod patterns;
pub mod handler;
pub mod listing;
pub mod command;
pub mod logger;
pub mod config;
pub mod detail;
pub mod choice;
pub mod laws;
