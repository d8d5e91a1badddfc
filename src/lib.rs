//! An in-memory bill tracker: a store of named bills and the interactive
//! controller that drives it, one line of input at a time.

pub mod store;
pub mod menu;
pub mod session;
