//! The decisions of the two scan services: what to work on, and what each
//! message of a running scan does to the state.

pub mod arrival;
pub mod disk;
pub mod pool;
pub mod scanner;
