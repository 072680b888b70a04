//! Interactive navigation engine for browsing the links of web pages from a terminal.
//!
//! The crate holds the application state, the transition function that turns
//! intents into state changes and commands, the mapping from terminal input to
//! intents, and the extraction of a page's links from its HTML body.

pub mod args;
pub mod domain;
pub mod service;
pub mod text;
pub mod tui;
