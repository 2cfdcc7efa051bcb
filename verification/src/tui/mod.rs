//! The interactive side of the tool: its state, the rules by which key
//! presses and scan messages change it, and the decisions of the two scan
//! services.

pub mod controller;
pub mod logic;
pub mod service;
pub mod state;
pub mod view;
