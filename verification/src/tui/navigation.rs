//! What holds of navigation in every state: the invariant that ties the page
//! on show, the page cache and the history together, and the laws of moving
//! forward, back and along the list.

use super::command::CommandView;
use super::common::{too_small, TerminalDimensions};
use super::event::{event_intent, is_quit_key, Event, KeyEvent};
use super::message::MessageView;
use super::model::{MessageKind, ModelView, ResultsView, UserMessageView};
use super::update::{HISTORY_START_TEXT, SAME_URL_TEXT};
use crate::domain::page::PageView;
use vstd::prelude::*;

verus! {

impl ModelView {
    /// The state after `message` was processed `times` times in a row.
    pub open spec fn updated_repeatedly(self, message: MessageView, times: nat) -> ModelView
        decreases times,
    {
        if times == 0 {
            self
        } else {
            self.updated(message).updated_repeatedly(message, (times - 1) as nat)
        }
    }
}

impl MessageView {
    /// The message can arrive in `model`: the outcome of a fetch names as
    /// previous page one that the state has seen.
    pub open spec fn fits(self, model: ModelView) -> bool {
        self matches MessageView::ResultsFetched { previous, .. }
            ==> model.results_cache.contains_key(previous)
    }
}

/// The interface starts in a consistent state.
pub proof fn lemma_start_is_wf(page: PageView, dimensions: TerminalDimensions, debug: bool)
    ensures
        ModelView::start(page, dimensions, debug).wf(),
{
}

/// Processing an intent keeps a consistent state consistent. In particular
/// the newest entry of the history is always the URL of a cached page.
pub proof fn lemma_update_keeps_wf(model: ModelView, message: MessageView)
    requires
        model.wf(),
        message.fits(model),
    ensures
        model.updated(message).wf(),
        model.updated(message).history.len() > 0 ==> model.updated(
            message,
        ).results_cache.contains_key(model.updated(message).history.last()),
{
    let after = model.applied(message);
    assert(after.wf()) by {
        match message {
            MessageView::UrlChosen => {},
            MessageView::ResultsFetched { previous, chosen, page_result } => {},
            MessageView::GoBack => {},
            _ => {},
        }
    }
    assert(after.ticked().wf());
}

/// The page cache only grows: a page once cached stays cached, whatever
/// intent is processed.
pub proof fn lemma_cache_grows(model: ModelView, message: MessageView, url: Seq<char>)
    requires
        model.results_cache.contains_key(url),
    ensures
        model.updated(message).results_cache.contains_key(url),
{
}

/// Once the application is done it stays done.
pub proof fn lemma_done_is_absorbing(model: ModelView, message: MessageView)
    requires
        model.running_state == super::model::RunningState::Done,
    ensures
        model.updated(message).running_state == super::model::RunningState::Done,
{
}

/// Choosing a link that is not cached asks for exactly one fetch, from the
/// page on show to the link, and changes nothing in the state but the tick of
/// the message timer; with no message on show the state is left as it was.
pub proof fn lemma_cache_miss_asks_for_fetch(model: ModelView, url: Seq<char>, index: nat)
    requires
        model.wf(),
        model.selection() == Some((url, index)),
        !model.results_cache.contains_key(url),
    ensures
        model.commands(MessageView::UrlChosen) == seq![
            CommandView::GetResults { current: model.page_details.url, chosen: url },
        ],
        model.updated(MessageView::UrlChosen) == model.ticked(),
        model.user_message is None ==> model.updated(MessageView::UrlChosen) == model,
{
}

/// Choosing a cached link other than the page on show asks for no command:
/// the history gains the URL left behind as its one new entry, and the page
/// details and the list are those of the cached page.
pub proof fn lemma_cache_hit_shows_page(model: ModelView, url: Seq<char>, index: nat)
    requires
        model.selection() == Some((url, index)),
        model.results_cache.contains_key(url),
        url != model.page_details.url,
    ensures
        model.commands(MessageView::UrlChosen) == Seq::<CommandView>::empty(),
        model.updated(MessageView::UrlChosen).history == model.history.push(
            model.page_details.url,
        ),
        model.updated(MessageView::UrlChosen).page_details == model.results_cache[url].details,
        model.updated(MessageView::UrlChosen).results == Ok::<ResultsView, Seq<char>>(
            ResultsView::of(model.results_cache[url].page_urls),
        ),
        model.updated(MessageView::UrlChosen).results_cache == model.results_cache,
{
}

/// Choosing the page on show changes neither the history, the page cache,
/// the page details nor the list, and asks for no command: it only leaves an
/// error message.
pub proof fn lemma_same_url_only_warns(model: ModelView, index: nat)
    requires
        model.selection() == Some((model.page_details.url, index)),
    ensures
        model.commands(MessageView::UrlChosen) == Seq::<CommandView>::empty(),
        model.updated(MessageView::UrlChosen) == model.with_message(
            UserMessageView::error(SAME_URL_TEXT@),
        ).ticked(),
        model.updated(MessageView::UrlChosen).history == model.history,
        model.updated(MessageView::UrlChosen).results_cache == model.results_cache,
        model.updated(MessageView::UrlChosen).results == model.results,
        model.updated(MessageView::UrlChosen).page_details == model.page_details,
        model.updated(MessageView::UrlChosen).user_message matches Some(message)
            && message.kind == MessageKind::Error && message.value == SAME_URL_TEXT@,
{
}

/// Going back with an empty history changes neither the page details nor the
/// list: it only leaves the error message that the start has been reached.
pub proof fn lemma_go_back_at_start(model: ModelView)
    requires
        model.history.len() == 0,
    ensures
        model.commands(MessageView::GoBack) == Seq::<CommandView>::empty(),
        model.updated(MessageView::GoBack) == model.with_message(
            UserMessageView::error(HISTORY_START_TEXT@),
        ).ticked(),
        model.updated(MessageView::GoBack).page_details == model.page_details,
        model.updated(MessageView::GoBack).results == model.results,
        model.updated(MessageView::GoBack).history == model.history,
        model.updated(MessageView::GoBack).user_message matches Some(message)
            && message.kind == MessageKind::Error && message.value == HISTORY_START_TEXT@,
{
}

/// With the cursor on the last link, moving to the next link or to the last
/// one leaves the list and the cursor as they are, however often it is done.
pub proof fn lemma_stays_on_last(model: ModelView, results: ResultsView, times: nat)
    requires
        model.results == Ok::<ResultsView, Seq<char>>(results),
        results.items.len() > 0,
        results.selected == Some((results.items.len() - 1) as nat),
    ensures
        model.updated_repeatedly(MessageView::GoToNextListItem, times).results == model.results,
        model.updated_repeatedly(MessageView::GoToLastListItem, times).results == model.results,
    decreases times,
{
    if times > 0 {
        lemma_stays_on_last(
            model.updated(MessageView::GoToNextListItem),
            results,
            (times - 1) as nat,
        );
        lemma_stays_on_last(
            model.updated(MessageView::GoToLastListItem),
            results,
            (times - 1) as nat,
        );
    }
}

/// With the cursor on the first link, moving to the previous link or to the
/// first one leaves the list and the cursor as they are, however often it is
/// done.
pub proof fn lemma_stays_on_first(model: ModelView, results: ResultsView, times: nat)
    requires
        model.results == Ok::<ResultsView, Seq<char>>(results),
        results.items.len() > 0,
        results.selected == Some(0nat),
    ensures
        model.updated_repeatedly(MessageView::GoToPreviousListItem, times).results
            == model.results,
        model.updated_repeatedly(MessageView::GoToFirstListItem, times).results == model.results,
    decreases times,
{
    if times > 0 {
        lemma_stays_on_first(
            model.updated(MessageView::GoToPreviousListItem),
            results,
            (times - 1) as nat,
        );
        lemma_stays_on_first(
            model.updated(MessageView::GoToFirstListItem),
            results,
            (times - 1) as nat,
        );
    }
}

/// Moving forward to a cached page and going back again restores the page
/// details, the links in their order, and the history as they were before.
pub proof fn lemma_forward_then_back(model: ModelView, url: Seq<char>, index: nat)
    requires
        model.wf(),
        model.selection() == Some((url, index)),
        model.results_cache.contains_key(url),
        url != model.page_details.url,
    ensures
        ({
            let forward = model.updated(MessageView::UrlChosen);
            let back = forward.updated(MessageView::GoBack);
            &&& back.page_details == model.page_details
            &&& back.results matches Ok(results) && results.items == model.results->Ok_0.items
            &&& back.history == model.history
            &&& back.results_cache == model.results_cache
        }),
{
    let forward = model.updated(MessageView::UrlChosen);
    assert(forward.history == model.history.push(model.page_details.url));
    assert(forward.history.last() == model.page_details.url);
    assert(forward.history.drop_last() =~= model.history);
}

/// A resize below the minimum size marks the terminal as too small and
/// leaves the pane and the list as they are.
pub proof fn lemma_resize_below_minimum(model: ModelView, width: u16, height: u16)
    requires
        too_small(width, height),
    ensures
        model.updated(MessageView::TerminalResize(width, height)).terminal_too_small,
        model.updated(MessageView::TerminalResize(width, height)).active_pane
            == model.active_pane,
        model.updated(MessageView::TerminalResize(width, height)).results == model.results,
{
}

/// While the terminal is too small, a key other than the quit keys stands for
/// no intent, whatever the pane.
pub proof fn lemma_too_small_hears_only_quit(model: ModelView, key: KeyEvent)
    requires
        model.terminal_too_small,
        !is_quit_key(key.code),
    ensures
        event_intent(model, Event::Key(key)) is None,
{
}

/// A new size of the terminal is passed on in every state.
pub proof fn lemma_resize_is_always_heard(model: ModelView, width: u16, height: u16)
    ensures
        event_intent(model, Event::Resize(width, height)) == Some(
            MessageView::TerminalResize(width, height),
        ),
{
}

} // verus!
