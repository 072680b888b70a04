//! The transition function: one intent in, the next state and commands out.

use super::command::{command_views, Command, CommandView};
use super::message::{Message, MessageView};
use super::navigation::lemma_update_keeps_wf;
use super::model::{Model, ModelView, Results, ResultsView, RunningState, UserMessage, UserMessageView};
use crate::domain::page::{Page, PageView};
use crate::text::{join, joined, LINE_BREAK};
use vstd::prelude::*;
use vstd::string::StringExecFns;

verus! {

/// Shown when the link under the cursor is the page already on show.
pub const SAME_URL_TEXT: &'static str = "selected URL is the same as the current one";

/// Shown when a fetched page holds no links.
pub const NO_URLS_TEXT: &'static str = "no urls on the selected page";

/// Shown when there is no page to go back to.
pub const HISTORY_START_TEXT: &'static str = "at the start of navigation history";

/// Shown when the page to go back to is not among the pages seen.
pub const MISSING_PAGE_TEXT: &'static str = "something went wrong";

/// Shown when a clipboard write succeeded.
pub const YANKED_TEXT: &'static str = "yanked!";

/// Starts the message for a failed clipboard write.
pub const YANK_FAILED_PREFIX: &'static str = "couldn't yank url to clipboard: ";

/// Starts the message for a failed browser launch.
pub const OPEN_FAILED_PREFIX: &'static str = "couldn't open url: ";

/// Lifetime of the messages about clipboard writes and browser launches.
pub const SHORT_MESSAGE_FRAMES: u16 = 2;

impl ModelView {
    /// The state with `message` on show.
    pub open spec fn with_message(self, message: UserMessageView) -> ModelView {
        ModelView { user_message: Some(message), ..self }
    }

    /// The state that shows `page`, reached from the page on show or from
    /// elsewhere, with `history` as the way back.
    pub open spec fn showing(self, page: PageView, history: Seq<Seq<char>>) -> ModelView {
        ModelView {
            page_details: page.details,
            results: Ok(ResultsView::of(page.page_urls)),
            history,
            ..self
        }
    }

    /// The state after the link under the cursor was chosen. The page on show
    /// is refused with a message; a page seen before is shown at once, with
    /// the page left behind as the newest entry of the history; for any other
    /// link the state waits for the fetch.
    pub open spec fn url_chosen(self) -> ModelView {
        match self.selection() {
            Some((url, _)) => {
                if url == self.page_details.url {
                    self.with_message(UserMessageView::error(SAME_URL_TEXT@))
                } else if self.results_cache.contains_key(url) {
                    self.showing(self.results_cache[url], self.history.push(self.page_details.url))
                } else {
                    self
                }
            },
            None => self,
        }
    }

    /// The commands that choosing the link under the cursor asks for: one
    /// fetch when the link is neither on show nor seen before, else none.
    pub open spec fn url_chosen_commands(self) -> Seq<CommandView> {
        match self.selection() {
            Some((url, _)) => {
                if url != self.page_details.url && !self.results_cache.contains_key(url) {
                    seq![CommandView::GetResults { current: self.page_details.url, chosen: url }]
                } else {
                    Seq::empty()
                }
            },
            None => Seq::empty(),
        }
    }

    /// The state after a fetch begun on `previous` has ended. A page with
    /// links is shown and cached under its own URL; a page without links only
    /// leaves a message; a failure takes the place of the list. Whenever the
    /// list is replaced, `previous` becomes the newest entry of the history.
    pub open spec fn results_fetched(
        self,
        previous: Seq<char>,
        page_result: Result<PageView, Seq<char>>,
    ) -> ModelView {
        match page_result {
            Ok(page) => {
                if page.page_urls.len() == 0 {
                    self.with_message(UserMessageView::info(NO_URLS_TEXT@))
                } else {
                    ModelView {
                        results_cache: self.results_cache.insert(page.details.url, page),
                        user_message: None,
                        ..self.showing(page, self.history.push(previous))
                    }
                }
            },
            Err(error) => ModelView {
                results: Err(error),
                history: self.history.push(previous),
                ..self
            },
        }
    }

    /// The state after a step back: the newest entry leaves the history and
    /// its page is shown again; with an empty history only a message appears.
    pub open spec fn gone_back(self) -> ModelView {
        if self.history.len() > 0 {
            let last_url = self.history.last();
            let history = self.history.drop_last();
            if self.results_cache.contains_key(last_url) {
                ModelView {
                    user_message: None,
                    ..self.showing(self.results_cache[last_url], history)
                }
            } else {
                ModelView { history, ..self }.with_message(
                    UserMessageView::error(MISSING_PAGE_TEXT@),
                )
            }
        } else {
            self.with_message(UserMessageView::error(HISTORY_START_TEXT@))
        }
    }

    /// The state after a clipboard write has ended.
    pub open spec fn content_yanked(self, outcome: Result<(), Seq<char>>) -> ModelView {
        match outcome {
            Ok(_) => self.with_message(
                UserMessageView::info(YANKED_TEXT@).with_frames_left(SHORT_MESSAGE_FRAMES as nat),
            ),
            Err(error) => self.with_message(
                UserMessageView::error(YANK_FAILED_PREFIX@ + error).with_frames_left(
                    SHORT_MESSAGE_FRAMES as nat,
                ),
            ),
        }
    }

    /// The state after a browser launch has ended.
    pub open spec fn url_opened(self, outcome: Result<(), Seq<char>>) -> ModelView {
        match outcome {
            Ok(_) => self,
            Err(error) => self.with_message(
                UserMessageView::error(OPEN_FAILED_PREFIX@ + error).with_frames_left(
                    SHORT_MESSAGE_FRAMES as nat,
                ),
            ),
        }
    }

    /// The state after a switch to `pane`.
    pub open spec fn at_pane(self, pane: super::common::Pane) -> ModelView {
        ModelView { last_active_pane: Some(self.active_pane), active_pane: pane, ..self }
    }

    /// The state once the application has ended.
    pub open spec fn done(self) -> ModelView {
        ModelView { running_state: RunningState::Done, ..self }
    }

    /// The state after `message` was applied, before the message timer ticks.
    pub open spec fn applied(self, message: MessageView) -> ModelView {
        match message {
            MessageView::UrlChosen => self.url_chosen(),
            MessageView::ResultsFetched { previous, chosen, page_result } => self.results_fetched(
                previous,
                page_result,
            ),
            MessageView::GoToNextListItem => self.select_next(),
            MessageView::GoToPreviousListItem => self.select_previous(),
            MessageView::GoToFirstListItem => self.select_first(),
            MessageView::GoToLastListItem => self.select_last(),
            MessageView::TerminalResize(width, height) => self.resized(width, height),
            MessageView::YankUrlToClipboard => self,
            MessageView::YankUrlsToClipboard => self,
            MessageView::ContentYanked(outcome) => self.content_yanked(outcome),
            MessageView::OpenUrlInBrowser => self,
            MessageView::UrlOpened(outcome) => self.url_opened(outcome),
            MessageView::GoToPane(pane) => self.at_pane(pane),
            MessageView::GoBack => self.gone_back(),
            MessageView::GoBackOrQuit => self.go_back_or_quit(),
            MessageView::QuitImmediately => self.done(),
        }
    }

    /// The state after the message timer ticked: a message with frames left
    /// loses one, a message without any is cleared.
    pub open spec fn ticked(self) -> ModelView {
        ModelView {
            user_message: match self.user_message {
                Some(message) => {
                    if message.frames_left == 0 {
                        None
                    } else {
                        Some(message.with_frames_left((message.frames_left - 1) as nat))
                    }
                },
                None => None,
            },
            ..self
        }
    }

    /// The state after `message` was processed.
    pub open spec fn updated(self, message: MessageView) -> ModelView {
        self.applied(message).ticked()
    }

    /// The commands that processing `message` asks for.
    pub open spec fn commands(self, message: MessageView) -> Seq<CommandView> {
        match message {
            MessageView::UrlChosen => self.url_chosen_commands(),
            MessageView::YankUrlToClipboard => match self.selection() {
                Some((url, _)) => seq![CommandView::YankContentToClipboard(url)],
                None => Seq::empty(),
            },
            MessageView::YankUrlsToClipboard => match self.results {
                Ok(results) => seq![
                    CommandView::YankContentToClipboard(joined(results.items, LINE_BREAK@)),
                ],
                Err(_) => Seq::empty(),
            },
            MessageView::OpenUrlInBrowser => match self.selection() {
                Some((url, _)) => seq![CommandView::OpenInBrowser(url)],
                None => Seq::empty(),
            },
            _ => Seq::empty(),
        }
    }
}

/// Handles the choice of the link under the cursor.
fn choose_url(model: &mut Model) -> (cmds: Vec<Command>)
    ensures
        final(model)@ == old(model)@.url_chosen(),
        command_views(cmds@) == old(model)@.url_chosen_commands(),
{
    let mut cmds: Vec<Command> = Vec::new();
    if let Some((url, _)) = model.get_selected_url() {
        if url == model.page_details.url {
            model.user_message = Some(UserMessage::error(SAME_URL_TEXT));
        } else if let Some(page) = model.results_cache.get(url.as_str()) {
            model.history.push_back(model.page_details.url.clone());
            model.page_details = page.details.clone();
            model.results = Ok(Results::from_page(page));
            assert(model@.history =~= old(model)@.history.push(old(model)@.page_details.url));
        } else {
            cmds.push(Command::GetResults { current: model.page_details.url.clone(), chosen: url });
        }
    }
    assert(command_views(cmds@) =~= old(model)@.url_chosen_commands());
    cmds
}

/// Takes in the outcome of a fetch.
fn adopt_fetch(model: &mut Model, previous: String, page_result: Result<Page, String>)
    ensures
        final(model)@ == old(model)@.results_fetched(previous@, super::message::page_result_view(page_result)),
{
    match page_result {
        Ok(page) => {
            if page.page_urls.len() == 0 {
                model.user_message = Some(UserMessage::info(NO_URLS_TEXT));
            } else {
                model.results = Ok(Results::from_urls(&page.page_urls));
                model.page_details = page.details.clone();
                model.results_cache.insert(page.details.url.clone(), page);
                model.history.push_back(previous);
                model.user_message = None;
                assert(model@.history =~= old(model)@.history.push(previous@));
                assert(model@.results_cache =~= old(model)@.results_cache.insert(
                    page@.details.url,
                    page@,
                ));
            }
        },
        Err(error) => {
            model.results = Err(error);
            model.history.push_back(previous);
            assert(model@.history =~= old(model)@.history.push(previous@));
        },
    }
}

/// Steps back to the page that was on show before.
fn go_back(model: &mut Model)
    ensures
        final(model)@ == old(model)@.gone_back(),
{
    if let Some(last_url) = model.history.pop_back() {
        assert(model@.history =~= old(model)@.history.drop_last());
        assert(last_url@ == old(model)@.history.last());
        if let Some(page) = model.results_cache.get(last_url.as_str()) {
            model.page_details = page.details.clone();
            model.results = Ok(Results::from_page(page));
            model.user_message = None;
        } else {
            model.user_message = Some(UserMessage::error(MISSING_PAGE_TEXT));
        }
    } else {
        model.user_message = Some(UserMessage::error(HISTORY_START_TEXT));
    }
}

/// Lets the message timer tick once.
fn tick(model: &mut Model)
    ensures
        final(model)@ == old(model)@.ticked(),
{
    let clear = match &mut model.user_message {
        Some(message) => {
            if message.frames_left == 0 {
                true
            } else {
                message.frames_left -= 1;
                false
            }
        },
        None => false,
    };
    if clear {
        model.user_message = None;
    }
}

/// Processes one intent: changes the state as the intent asks, lets the
/// message timer tick, and returns the commands to run. A consistent state
/// stays consistent under every intent that fits it.
pub fn update(model: &mut Model, msg: Message) -> (cmds: Vec<Command>)
    ensures
        final(model)@ == old(model)@.updated(msg@),
        command_views(cmds@) == old(model)@.commands(msg@),
        old(model)@.wf() && msg@.fits(old(model)@) ==> final(model)@.wf(),
{
    let mut cmds: Vec<Command> = Vec::new();
    match msg {
        Message::UrlChosen => {
            cmds = choose_url(model);
        },
        Message::ResultsFetched { previous, chosen, page_result } => {
            adopt_fetch(model, previous, page_result);
        },
        Message::GoToNextListItem => model.select_next_list_item(),
        Message::GoToPreviousListItem => model.select_previous_list_item(),
        Message::GoToFirstListItem => model.select_first_list_item(),
        Message::GoToLastListItem => model.select_last_list_item(),
        Message::TerminalResize(width, height) => model.resize(width, height),
        Message::YankUrlToClipboard => {
            if let Some((url, _)) = model.get_selected_url() {
                cmds.push(Command::YankContentToClipboard(url));
            }
        },
        Message::YankUrlsToClipboard => {
            if let Ok(results) = &model.results {
                let urls = join(&results.items, LINE_BREAK);
                cmds.push(Command::YankContentToClipboard(urls));
            }
        },
        Message::ContentYanked(result) => {
            match result {
                Err(error) => {
                    let text = String::from_str(YANK_FAILED_PREFIX).concat(error.as_str());
                    model.user_message = Some(
                        UserMessage::error(text.as_str()).with_frames_left(SHORT_MESSAGE_FRAMES),
                    );
                },
                Ok(_) => {
                    model.user_message = Some(
                        UserMessage::info(YANKED_TEXT).with_frames_left(SHORT_MESSAGE_FRAMES),
                    );
                },
            }
        },
        Message::OpenUrlInBrowser => {
            if let Some((url, _)) = model.get_selected_url() {
                cmds.push(Command::OpenInBrowser(url));
            }
        },
        Message::UrlOpened(result) => {
            if let Err(error) = result {
                let text = String::from_str(OPEN_FAILED_PREFIX).concat(error.as_str());
                model.user_message = Some(
                    UserMessage::error(text.as_str()).with_frames_left(SHORT_MESSAGE_FRAMES),
                );
            }
        },
        Message::GoToPane(pane) => {
            model.last_active_pane = Some(model.active_pane);
            model.active_pane = pane;
        },
        Message::GoBack => go_back(model),
        Message::GoBackOrQuit => model.go_back_or_quit(),
        Message::QuitImmediately => {
            model.running_state = RunningState::Done;
        },
    }
    assert(model@ == old(model)@.applied(msg@));
    assert(command_views(cmds@) =~= old(model)@.commands(msg@));
    tick(model);
    proof {
        if old(model)@.wf() && msg@.fits(old(model)@) {
            lemma_update_keeps_wf(old(model)@, msg@);
        }
    }
    cmds
}

} // verus!
