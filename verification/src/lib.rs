//! Authorization-flow coordinator for a desktop client of an OAuth2
//! authorization-code provider.
//!
//! The crate holds the decisions of a login attempt and the data they work
//! on; sockets, the browser, the provider and the disk belong to the program
//! that drives it.

pub mod callback;
pub mod flow;
pub mod guarantees;
pub mod gui;
pub mod listener;
pub mod store;
pub mod token;
