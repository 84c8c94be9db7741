//! A client for the YouTrack REST API and the commands of a tool built on
//! it: listing, describing and creating custom fields and their values, and
//! listing and describing projects.
//!
//! The library decides every request and every line of output; the program
//! around it performs the HTTP requests, parses their JSON answers, reads
//! the environment and prints.

pub mod cli;
pub mod client;
pub mod commands;
pub mod error;
pub mod models;
pub mod table;
pub mod text;
