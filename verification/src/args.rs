//! What the command line asks for, and what to do with the start page.

use crate::domain::page::{Page, PageView};
use crate::text::{join, joined, LINE_BREAK};
use vstd::prelude::*;

verus! {

/// The arguments of the command line.
#[derive(Debug)]
pub struct Args {
    /// The page to start on.
    pub url: String,
    /// Whether to browse the links in the terminal interface.
    pub tui: bool,
}

/// What to do once the start page has been fetched.
#[derive(Debug)]
pub enum Launch {
    /// The page has no links: there is nothing to show.
    Nothing,
    /// Browse the page in the terminal interface.
    Browse(Page),
    /// Print the text: the links, one on each line.
    Print(String),
}

/// The mathematical value of a [`Launch`].
pub enum LaunchView {
    Nothing,
    Browse(PageView),
    Print(Seq<char>),
}

impl View for Launch {
    type V = LaunchView;

    open spec fn view(&self) -> LaunchView {
        match self {
            Launch::Nothing => LaunchView::Nothing,
            Launch::Browse(page) => LaunchView::Browse(page@),
            Launch::Print(text) => LaunchView::Print(text@),
        }
    }
}

/// What is to be done with the start page: nothing if it has no links, else
/// the interface if it was asked for, else the links are printed.
pub open spec fn launch_of(tui: bool, page: PageView) -> LaunchView {
    if page.page_urls.len() == 0 {
        LaunchView::Nothing
    } else if tui {
        LaunchView::Browse(page)
    } else {
        LaunchView::Print(joined(page.page_urls, LINE_BREAK@))
    }
}

impl Args {
    /// Decides what to do with the start page.
    pub fn launch(&self, page: Page) -> (launch: Launch)
        ensures
            launch@ == launch_of(self.tui, page@),
    {
        if page.page_urls.len() == 0 {
            Launch::Nothing
        } else if self.tui {
            Launch::Browse(page)
        } else {
            Launch::Print(join(&page.page_urls, LINE_BREAK))
        }
    }
}

} // verus!
