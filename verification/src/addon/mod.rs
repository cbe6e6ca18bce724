//! Optional behaviour that the dispatcher consults for every request.

pub mod filter;
