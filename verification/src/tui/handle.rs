//! The report of a finished command: the intent that brings its outcome back.

use super::command::{Command, CommandView};
use super::event::intent_view;
use super::message::{outcome_view, page_result_view, Message, MessageView};
use crate::domain::page::{Page, PageView};
use vstd::prelude::*;

verus! {

/// How a command ended. Failures are values: each carries its description.
#[derive(Debug)]
pub enum Outcome {
    /// A fetch ended with a page or failed.
    Fetched(Result<Page, String>),
    /// A clipboard write or a browser launch succeeded or failed.
    Finished(Result<(), String>),
}

/// The mathematical value of an [`Outcome`].
pub enum OutcomeView {
    Fetched(Result<PageView, Seq<char>>),
    Finished(Result<(), Seq<char>>),
}

impl View for Outcome {
    type V = OutcomeView;

    open spec fn view(&self) -> OutcomeView {
        match self {
            Outcome::Fetched(page_result) => OutcomeView::Fetched(page_result_view(*page_result)),
            Outcome::Finished(outcome) => OutcomeView::Finished(outcome_view(*outcome)),
        }
    }
}

impl CommandView {
    /// The intent that reports how the command ended. A fetch is reported
    /// with the page it was begun on as the previous page, whether it
    /// succeeded or not. An outcome of the wrong kind is not reported.
    pub open spec fn report(self, outcome: OutcomeView) -> Option<MessageView> {
        match (self, outcome) {
            (CommandView::GetResults { current, chosen }, OutcomeView::Fetched(page_result)) => Some(
                MessageView::ResultsFetched { previous: current, chosen, page_result },
            ),
            (CommandView::YankContentToClipboard(_), OutcomeView::Finished(outcome)) => Some(
                MessageView::ContentYanked(outcome),
            ),
            (CommandView::OpenInBrowser(_), OutcomeView::Finished(outcome)) => Some(
                MessageView::UrlOpened(outcome),
            ),
            _ => None,
        }
    }
}

/// Makes the intent that reports how `command` ended.
pub fn report(command: Command, outcome: Outcome) -> (intent: Option<Message>)
    ensures
        intent_view(intent) == command@.report(outcome@),
{
    match (command, outcome) {
        (Command::GetResults { current, chosen }, Outcome::Fetched(page_result)) => Some(
            Message::ResultsFetched { previous: current, chosen, page_result },
        ),
        (Command::YankContentToClipboard(_), Outcome::Finished(outcome)) => Some(
            Message::ContentYanked(outcome),
        ),
        (Command::OpenInBrowser(_), Outcome::Finished(outcome)) => Some(Message::UrlOpened(outcome)),
        _ => None,
    }
}

} // verus!
