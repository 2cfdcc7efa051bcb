//! The tool as a server for other programs: what it is asked and what it
//! answers.

pub mod server;
