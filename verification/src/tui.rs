//! The terminal user interface: state, intents, commands and transitions.

pub mod app;
pub mod command;
pub mod common;
pub mod event;
pub mod handle;
pub mod message;
pub mod model;
pub mod navigation;
pub mod update;
pub mod view;
