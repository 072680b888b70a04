//! Intents: what the user or a finished command asks of the state.

use super::common::Pane;
use crate::domain::page::{Page, PageView};
use vstd::prelude::*;

verus! {

/// An application-level event, handled one at a time by the transition function.
#[derive(Debug)]
pub enum Message {
    TerminalResize(u16, u16),
    GoToNextListItem,
    GoToPreviousListItem,
    GoToFirstListItem,
    GoToLastListItem,
    YankUrlToClipboard,
    YankUrlsToClipboard,
    OpenUrlInBrowser,
    GoToPane(Pane),
    GoBack,
    UrlChosen,
    /// A fetch of `chosen`, begun while `previous` was shown, has ended.
    ResultsFetched { previous: String, chosen: String, page_result: Result<Page, String> },
    /// A clipboard write has ended; the error is its description.
    ContentYanked(Result<(), String>),
    /// A browser launch has ended; the error is its description.
    UrlOpened(Result<(), String>),
    GoBackOrQuit,
    QuitImmediately,
}

/// The mathematical value of a [`Message`].
pub enum MessageView {
    TerminalResize(u16, u16),
    GoToNextListItem,
    GoToPreviousListItem,
    GoToFirstListItem,
    GoToLastListItem,
    YankUrlToClipboard,
    YankUrlsToClipboard,
    OpenUrlInBrowser,
    GoToPane(Pane),
    GoBack,
    UrlChosen,
    ResultsFetched { previous: Seq<char>, chosen: Seq<char>, page_result: Result<PageView, Seq<char>> },
    ContentYanked(Result<(), Seq<char>>),
    UrlOpened(Result<(), Seq<char>>),
    GoBackOrQuit,
    QuitImmediately,
}

/// The view of the outcome of a clipboard write or a browser launch.
pub open spec fn outcome_view(outcome: Result<(), String>) -> Result<(), Seq<char>> {
    match outcome {
        Ok(_) => Ok(()),
        Err(e) => Err(e@),
    }
}

/// The view of the outcome of a fetch.
pub open spec fn page_result_view(outcome: Result<Page, String>) -> Result<PageView, Seq<char>> {
    match outcome {
        Ok(page) => Ok(page@),
        Err(e) => Err(e@),
    }
}

impl View for Message {
    type V = MessageView;

    open spec fn view(&self) -> MessageView {
        match self {
            Message::TerminalResize(w, h) => MessageView::TerminalResize(*w, *h),
            Message::GoToNextListItem => MessageView::GoToNextListItem,
            Message::GoToPreviousListItem => MessageView::GoToPreviousListItem,
            Message::GoToFirstListItem => MessageView::GoToFirstListItem,
            Message::GoToLastListItem => MessageView::GoToLastListItem,
            Message::YankUrlToClipboard => MessageView::YankUrlToClipboard,
            Message::YankUrlsToClipboard => MessageView::YankUrlsToClipboard,
            Message::OpenUrlInBrowser => MessageView::OpenUrlInBrowser,
            Message::GoToPane(pane) => MessageView::GoToPane(*pane),
            Message::GoBack => MessageView::GoBack,
            Message::UrlChosen => MessageView::UrlChosen,
            Message::ResultsFetched { previous, chosen, page_result } => MessageView::ResultsFetched {
                previous: previous@,
                chosen: chosen@,
                page_result: page_result_view(*page_result),
            },
            Message::ContentYanked(outcome) => MessageView::ContentYanked(outcome_view(*outcome)),
            Message::UrlOpened(outcome) => MessageView::UrlOpened(outcome_view(*outcome)),
            Message::GoBackOrQuit => MessageView::GoBackOrQuit,
            Message::QuitImmediately => MessageView::QuitImmediately,
        }
    }
}

} // verus!
