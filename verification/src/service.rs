//! What turns the body of a web page into a page of links.

pub mod fetch;
