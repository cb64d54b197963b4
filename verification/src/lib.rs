//! Enumeration of a window tree and bulk commands on the windows whose names
//! match a pattern.
//!
//! The library holds the decisions; whoever owns the connection to the
//! windowing system performs the queries and requests that the library asks for
//! and hands the answers back.

pub mod command;
pub mod container;
pub mod context;
pub mod pattern;
pub mod request;
pub mod tree;
pub mod walk;
pub mod window;
