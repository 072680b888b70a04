//! The data that a fetched web page is reduced to.

pub mod page;
