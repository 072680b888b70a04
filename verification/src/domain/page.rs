//! A fetched page: its details and the links found on it.

use crate::text::{clone_opt_string, opt_text, texts};
use vstd::prelude::*;

verus! {

/// What is known of a page besides its links.
#[derive(Debug)]
pub struct PageDetails {
    pub url: String,
    pub title: Option<String>,
    pub description: Option<String>,
}

/// The mathematical value of a [`PageDetails`].
pub struct PageDetailsView {
    pub url: Seq<char>,
    pub title: Option<Seq<char>>,
    pub description: Option<Seq<char>>,
}

impl View for PageDetails {
    type V = PageDetailsView;

    open spec fn view(&self) -> PageDetailsView {
        PageDetailsView {
            url: self.url@,
            title: opt_text(self.title),
            description: opt_text(self.description),
        }
    }
}

impl Clone for PageDetails {
    fn clone(&self) -> (copy: Self)
        ensures
            copy@ == self@,
    {
        PageDetails {
            url: self.url.clone(),
            title: clone_opt_string(&self.title),
            description: clone_opt_string(&self.description),
        }
    }
}

/// A page as the fetcher hands it over: its details and its links, sorted,
/// without repetition, each an absolute `http` or `https` URL.
#[derive(Debug)]
pub struct Page {
    pub details: PageDetails,
    pub page_urls: Vec<String>,
}

/// The mathematical value of a [`Page`].
pub struct PageView {
    pub details: PageDetailsView,
    pub page_urls: Seq<Seq<char>>,
}

impl View for Page {
    type V = PageView;

    open spec fn view(&self) -> PageView {
        PageView { details: self.details@, page_urls: texts(self.page_urls@) }
    }
}

} // verus!
