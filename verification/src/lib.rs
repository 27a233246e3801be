//! Verified core of a command-line companion for a local Ollama daemon.
//!
//! The crate holds every decision the tool makes: which arguments the
//! `ollama` binary is started with, how an exit status becomes an error, how
//! the body of a generation request is framed and its answer decoded, and
//! which model names a catalogue page lists. Starting processes and talking
//! to the network is left to the program built on top of it.

pub mod cli;
pub mod error;
pub mod generate;
pub mod models;
pub mod ollama;
pub mod text;

pub use error::Error;
