//! The application state and the operations on it.

use super::common::{too_small, Pane, TerminalDimensions};
use crate::domain::page::{Page, PageDetails, PageDetailsView, PageView};
use crate::text::{clone_strings, texts};
use ratatui::widgets::ListState;
use std::collections::VecDeque;
use vstd::hash_map::StringHashMap;
use vstd::prelude::*;
use vstd::string::StringExecFns;

verus! {

/// Number of processed intents for which a message stays visible by default.
pub const USER_MESSAGE_DEFAULT_FRAMES: u16 = 4;

/// Whether the application goes on or has ended. `Done` is never left.
#[derive(Debug, PartialEq, Eq, Structural, Clone, Copy)]
pub enum RunningState {
    Running,
    Done,
}

impl Default for RunningState {
    fn default() -> (state: Self)
        ensures
            state == RunningState::Running,
    {
        RunningState::Running
    }
}

/// The tone of a transient message.
#[derive(Debug, PartialEq, Eq, Structural, Clone, Copy)]
pub enum MessageKind {
    Info,
    Error,
}

/// A short-lived notification for the status line.
#[derive(Debug)]
pub struct UserMessage {
    pub frames_left: u16,
    pub value: String,
    pub kind: MessageKind,
}

/// The mathematical value of a [`UserMessage`].
pub struct UserMessageView {
    pub frames_left: nat,
    pub value: Seq<char>,
    pub kind: MessageKind,
}

impl View for UserMessage {
    type V = UserMessageView;

    open spec fn view(&self) -> UserMessageView {
        UserMessageView {
            frames_left: self.frames_left as nat,
            value: self.value@,
            kind: self.kind,
        }
    }
}

impl UserMessageView {
    /// An informational message with the default lifetime.
    pub open spec fn info(text: Seq<char>) -> UserMessageView {
        UserMessageView {
            frames_left: USER_MESSAGE_DEFAULT_FRAMES as nat,
            value: text,
            kind: MessageKind::Info,
        }
    }

    /// An error message with the default lifetime.
    pub open spec fn error(text: Seq<char>) -> UserMessageView {
        UserMessageView {
            frames_left: USER_MESSAGE_DEFAULT_FRAMES as nat,
            value: text,
            kind: MessageKind::Error,
        }
    }

    /// The same message with another lifetime.
    pub open spec fn with_frames_left(self, frames_left: nat) -> UserMessageView {
        UserMessageView { frames_left, ..self }
    }
}

impl UserMessage {
    /// An informational message with the default lifetime.
    pub fn info(message: &str) -> (made: Self)
        ensures
            made@ == UserMessageView::info(message@),
    {
        UserMessage {
            frames_left: USER_MESSAGE_DEFAULT_FRAMES,
            value: String::from_str(message),
            kind: MessageKind::Info,
        }
    }

    /// An error message with the default lifetime.
    pub fn error(message: &str) -> (made: Self)
        ensures
            made@ == UserMessageView::error(message@),
    {
        UserMessage {
            frames_left: USER_MESSAGE_DEFAULT_FRAMES,
            value: String::from_str(message),
            kind: MessageKind::Error,
        }
    }

    /// The same message with another lifetime.
    pub fn with_frames_left(self, frames_left: u16) -> (made: Self)
        ensures
            made@ == self@.with_frames_left(frames_left as nat),
    {
        let mut made = self;
        made.frames_left = frames_left;
        made
    }
}

/// The selection that is shown for a list of `len` items when `selected` was
/// asked for: none for an empty list, else the last item in place of an index
/// past the end.
pub open spec fn clamped(selected: Option<nat>, len: nat) -> Option<nat> {
    if len == 0 {
        None
    } else {
        match selected {
            Some(i) => Some(if i >= len { (len - 1) as nat } else { i }),
            None => None,
        }
    }
}

/// The selection after a move to the next item.
pub open spec fn next_selection(selected: Option<nat>, len: nat) -> Option<nat> {
    clamped(
        Some(
            match selected {
                Some(i) => i + 1,
                None => 0,
            },
        ),
        len,
    )
}

/// The selection after a move to the previous item.
pub open spec fn previous_selection(selected: Option<nat>, len: nat) -> Option<nat> {
    match selected {
        Some(i) => clamped(Some(if i > 0 { (i - 1) as nat } else { 0 }), len),
        None => last_selection(len),
    }
}

/// The selection after a move to the first item.
pub open spec fn first_selection(len: nat) -> Option<nat> {
    clamped(Some(0), len)
}

/// The selection after a move to the last item.
pub open spec fn last_selection(len: nat) -> Option<nat> {
    if len == 0 {
        None
    } else {
        Some((len - 1) as nat)
    }
}

/// The view of a selection.
pub open spec fn selection_view(selected: Option<usize>) -> Option<nat> {
    match selected {
        Some(i) => Some(i as nat),
        None => None,
    }
}

/// Moves a selection with `ratatui`'s `ListState::select_next`: the index
/// after the selected one, stopping at the largest `usize`, or the first index
/// when nothing was selected. The state is made with `ListState::with_selected`
/// and read back with `ListState::selected`.
#[verifier::external_body]
fn list_state_select_next(selected: Option<usize>) -> (moved: Option<usize>)
    ensures
        moved == Some(
            match selected {
                Some(i) => if i < usize::MAX { (i + 1) as usize } else { i },
                None => 0usize,
            },
        ),
{
    let mut state = ListState::default().with_selected(selected);
    state.select_next();
    state.selected()
}

/// Moves a selection with `ratatui`'s `ListState::select_previous`: the index
/// before the selected one, stopping at zero, or the largest `usize` when
/// nothing was selected.
#[verifier::external_body]
fn list_state_select_previous(selected: Option<usize>) -> (moved: Option<usize>)
    ensures
        moved == Some(
            match selected {
                Some(i) => if i > 0 { (i - 1) as usize } else { i },
                None => usize::MAX,
            },
        ),
{
    let mut state = ListState::default().with_selected(selected);
    state.select_previous();
    state.selected()
}

/// Moves a selection with `ratatui`'s `ListState::select_first`: index zero.
#[verifier::external_body]
fn list_state_select_first(selected: Option<usize>) -> (moved: Option<usize>)
    ensures
        moved == Some(0usize),
{
    let mut state = ListState::default().with_selected(selected);
    state.select_first();
    state.selected()
}

/// Moves a selection with `ratatui`'s `ListState::select_last`: the largest
/// `usize`, which stands for the last item until the list's length is known.
#[verifier::external_body]
fn list_state_select_last(selected: Option<usize>) -> (moved: Option<usize>)
    ensures
        moved == Some(usize::MAX),
{
    let mut state = ListState::default().with_selected(selected);
    state.select_last();
    state.selected()
}

/// Brings a selection into the bounds of a list of `len` items.
pub fn clamp_selection(selected: Option<usize>, len: usize) -> (shown: Option<usize>)
    ensures
        selection_view(shown) == clamped(selection_view(selected), len as nat),
{
    if len == 0 {
        None
    } else {
        match selected {
            Some(i) => Some(if i >= len { len - 1 } else { i }),
            None => None,
        }
    }
}

/// The links of the page on show, with the cursor on one of them.
#[derive(Debug)]
pub struct Results {
    pub items: Vec<String>,
    pub selected: Option<usize>,
}

/// The mathematical value of a [`Results`].
pub struct ResultsView {
    pub items: Seq<Seq<char>>,
    pub selected: Option<nat>,
}

impl View for Results {
    type V = ResultsView;

    open spec fn view(&self) -> ResultsView {
        ResultsView { items: texts(self.items@), selected: selection_view(self.selected) }
    }
}

impl ResultsView {
    /// The results that show `items` anew: the cursor on the first of them.
    pub open spec fn of(items: Seq<Seq<char>>) -> ResultsView {
        ResultsView { items, selected: first_selection(items.len()) }
    }

    /// The cursor is on an item, or the list is empty and nothing is selected.
    pub open spec fn wf(self) -> bool {
        match self.selected {
            Some(i) => i < self.items.len(),
            None => self.items.len() == 0,
        }
    }

    /// The selected item and its index, if the cursor is on an item.
    pub open spec fn selection(self) -> Option<(Seq<char>, nat)> {
        match self.selected {
            Some(i) => if i < self.items.len() {
                Some((self.items[i as int], i))
            } else {
                None
            },
            None => None,
        }
    }

    /// The same items with the cursor moved to the next one.
    pub open spec fn next(self) -> ResultsView {
        ResultsView { selected: next_selection(self.selected, self.items.len()), ..self }
    }

    /// The same items with the cursor moved to the previous one.
    pub open spec fn previous(self) -> ResultsView {
        ResultsView { selected: previous_selection(self.selected, self.items.len()), ..self }
    }

    /// The same items with the cursor on the first one.
    pub open spec fn first(self) -> ResultsView {
        ResultsView { selected: first_selection(self.items.len()), ..self }
    }

    /// The same items with the cursor on the last one.
    pub open spec fn last(self) -> ResultsView {
        ResultsView { selected: last_selection(self.items.len()), ..self }
    }
}

impl Default for Results {
    fn default() -> (results: Self)
        ensures
            results@ == ResultsView::of(Seq::empty()),
    {
        let items: Vec<String> = Vec::new();
        let selected = clamp_selection(list_state_select_first(None), 0);
        assert(texts(items@) =~= Seq::<Seq<char>>::empty());
        Results { items, selected }
    }
}

impl Results {
    /// Results that show the given links, with the cursor on the first of them.
    pub fn from_urls(urls: &Vec<String>) -> (results: Self)
        ensures
            results@ == ResultsView::of(texts(urls@)),
    {
        let items = clone_strings(urls);
        let selected = clamp_selection(list_state_select_first(None), items.len());
        Results { items, selected }
    }

    /// Results that show the links of a page, with the cursor on the first of them.
    pub fn from_page(page: &Page) -> (results: Self)
        ensures
            results@ == ResultsView::of(page@.page_urls),
    {
        Results::from_urls(&page.page_urls)
    }

    /// Moves the cursor to the next item; on the last item it stays.
    pub fn select_next(&mut self)
        ensures
            final(self)@ == old(self)@.next(),
    {
        self.selected = clamp_selection(list_state_select_next(self.selected), self.items.len());
    }

    /// Moves the cursor to the previous item; on the first item it stays.
    pub fn select_previous(&mut self)
        ensures
            final(self)@ == old(self)@.previous(),
    {
        self.selected = clamp_selection(
            list_state_select_previous(self.selected),
            self.items.len(),
        );
    }

    /// Moves the cursor to the first item.
    pub fn select_first(&mut self)
        ensures
            final(self)@ == old(self)@.first(),
    {
        self.selected = clamp_selection(list_state_select_first(self.selected), self.items.len());
    }

    /// Moves the cursor to the last item.
    pub fn select_last(&mut self)
        ensures
            final(self)@ == old(self)@.last(),
    {
        self.selected = clamp_selection(list_state_select_last(self.selected), self.items.len());
    }
}

/// The single source of truth of the interface: the page on show, the pages
/// seen so far, the way back, and what the status line says.
pub struct Model {
    pub active_pane: Pane,
    pub page_details: PageDetails,
    pub results: Result<Results, String>,
    pub results_cache: StringHashMap<Page>,
    pub history: VecDeque<String>,
    pub debug: bool,
    pub event_counter: u64,
    pub last_active_pane: Option<Pane>,
    pub render_counter: u64,
    pub running_state: RunningState,
    pub terminal_dimensions: TerminalDimensions,
    pub terminal_too_small: bool,
    pub user_message: Option<UserMessage>,
}

/// The mathematical value of a [`Model`].
pub struct ModelView {
    pub active_pane: Pane,
    pub page_details: PageDetailsView,
    pub results: Result<ResultsView, Seq<char>>,
    pub results_cache: Map<Seq<char>, PageView>,
    pub history: Seq<Seq<char>>,
    pub debug: bool,
    pub event_counter: nat,
    pub last_active_pane: Option<Pane>,
    pub render_counter: nat,
    pub running_state: RunningState,
    pub terminal_dimensions: TerminalDimensions,
    pub terminal_too_small: bool,
    pub user_message: Option<UserMessageView>,
}

/// The view of the outcome of the latest navigation.
pub open spec fn results_view(results: Result<Results, String>) -> Result<ResultsView, Seq<char>> {
    match results {
        Ok(r) => Ok(r@),
        Err(e) => Err(e@),
    }
}

/// The view of the page cache: each cached page by its view.
pub open spec fn cache_view(cache: Map<Seq<char>, Page>) -> Map<Seq<char>, PageView> {
    cache.map_values(|p: Page| p@)
}

/// The view of the message on show, if any.
pub open spec fn user_message_view(message: Option<UserMessage>) -> Option<UserMessageView> {
    match message {
        Some(m) => Some(m@),
        None => None,
    }
}

impl View for Model {
    type V = ModelView;

    open spec fn view(&self) -> ModelView {
        ModelView {
            active_pane: self.active_pane,
            page_details: self.page_details@,
            results: results_view(self.results),
            results_cache: cache_view(self.results_cache@),
            history: texts(self.history@),
            debug: self.debug,
            event_counter: self.event_counter as nat,
            last_active_pane: self.last_active_pane,
            render_counter: self.render_counter as nat,
            running_state: self.running_state,
            terminal_dimensions: self.terminal_dimensions,
            terminal_too_small: self.terminal_too_small,
            user_message: user_message_view(self.user_message),
        }
    }
}

impl ModelView {
    /// The state in which the interface starts on a fetched page.
    pub open spec fn start(page: PageView, dimensions: TerminalDimensions, debug: bool) -> ModelView {
        ModelView {
            active_pane: Pane::ResultsList,
            page_details: page.details,
            results: Ok(ResultsView::of(page.page_urls)),
            results_cache: Map::empty().insert(page.details.url, page),
            history: Seq::empty(),
            debug,
            event_counter: 0,
            last_active_pane: None,
            render_counter: 0,
            running_state: RunningState::Running,
            terminal_dimensions: dimensions,
            terminal_too_small: too_small(dimensions.width, dimensions.height),
            user_message: None,
        }
    }

    /// The state is consistent: the page on show is cached under its URL, the
    /// list holds that page's links with the cursor within it, every cached
    /// page is filed under its own URL, and every entry of the history is the
    /// URL of a cached page.
    pub open spec fn wf(self) -> bool {
        &&& self.results_cache.contains_key(self.page_details.url)
        &&& self.results_cache[self.page_details.url].details == self.page_details
        &&& self.results matches Ok(results) ==> {
            &&& results.wf()
            &&& results.items == self.results_cache[self.page_details.url].page_urls
        }
        &&& forall|url: Seq<char>| #[trigger]
            self.results_cache.contains_key(url) ==> self.results_cache[url].details.url == url
        &&& forall|i: int|
            0 <= i < self.history.len() ==> self.results_cache.contains_key(
                #[trigger] self.history[i],
            )
    }

    /// The highlighted link and its index: none when the latest navigation
    /// failed or the list is empty.
    pub open spec fn selection(self) -> Option<(Seq<char>, nat)> {
        match self.results {
            Ok(r) => r.selection(),
            Err(_) => None,
        }
    }

    /// The state after leaving the help pane, or after quitting from the list.
    pub open spec fn go_back_or_quit(self) -> ModelView {
        match self.active_pane {
            Pane::ResultsList => ModelView {
                running_state: RunningState::Done,
                last_active_pane: Some(Pane::ResultsList),
                ..self
            },
            Pane::Help => ModelView {
                active_pane: match self.last_active_pane {
                    Some(pane) => pane,
                    None => Pane::ResultsList,
                },
                last_active_pane: Some(Pane::Help),
                ..self
            },
        }
    }

    /// The state with the cursor moved by `step`, which acts only on a list
    /// that is on show in the results pane.
    pub open spec fn with_cursor(self, step: spec_fn(ResultsView) -> ResultsView) -> ModelView {
        match (self.active_pane, self.results) {
            (Pane::ResultsList, Ok(r)) => ModelView { results: Ok(step(r)), ..self },
            _ => self,
        }
    }

    /// The state with the cursor on the next item.
    pub open spec fn select_next(self) -> ModelView {
        self.with_cursor(|r: ResultsView| r.next())
    }

    /// The state with the cursor on the previous item.
    pub open spec fn select_previous(self) -> ModelView {
        self.with_cursor(|r: ResultsView| r.previous())
    }

    /// The state with the cursor on the first item.
    pub open spec fn select_first(self) -> ModelView {
        self.with_cursor(|r: ResultsView| r.first())
    }

    /// The state with the cursor on the last item.
    pub open spec fn select_last(self) -> ModelView {
        self.with_cursor(|r: ResultsView| r.last())
    }

    /// The state after the terminal took the given size: the pane and the
    /// selection stay as they are.
    pub open spec fn resized(self, width: u16, height: u16) -> ModelView {
        ModelView {
            terminal_dimensions: TerminalDimensions { width, height },
            terminal_too_small: too_small(width, height),
            ..self
        }
    }
}

impl Model {
    /// Starts the interface on a fetched page, which becomes the first entry
    /// of the page cache.
    pub fn new(page: Page, terminal_dimensions: TerminalDimensions, debug: bool) -> (model: Self)
        ensures
            model@ == ModelView::start(page@, terminal_dimensions, debug),
            model@.wf(),
    {
        let terminal_too_small = terminal_dimensions.is_too_small();
        let results = Ok(Results::from_urls(&page.page_urls));
        let mut results_cache: StringHashMap<Page> = StringHashMap::new();
        let page_details = page.details.clone();
        results_cache.insert(page.details.url.clone(), page);
        let model = Model {
            active_pane: Pane::ResultsList,
            page_details,
            results,
            results_cache,
            history: VecDeque::new(),
            debug,
            event_counter: 0,
            last_active_pane: None,
            render_counter: 0,
            running_state: RunningState::Running,
            terminal_dimensions,
            terminal_too_small,
            user_message: None,
        };
        assert(model@.results_cache =~= ModelView::start(
            page@,
            terminal_dimensions,
            debug,
        ).results_cache);
        assert(model@.history =~= Seq::empty());
        model
    }

    /// Leaves the help pane for the pane shown before it, or ends the
    /// application when the results list is on show.
    pub fn go_back_or_quit(&mut self)
        ensures
            final(self)@ == old(self)@.go_back_or_quit(),
    {
        let active_pane = Some(self.active_pane);
        match self.active_pane {
            Pane::ResultsList => {
                self.running_state = RunningState::Done;
            },
            Pane::Help => {
                self.active_pane = match self.last_active_pane {
                    Some(pane) => pane,
                    None => Pane::ResultsList,
                };
            },
        }
        self.last_active_pane = active_pane;
    }

    /// Moves the cursor to the next link.
    pub fn select_next_list_item(&mut self)
        ensures
            final(self)@ == old(self)@.select_next(),
    {
        match self.active_pane {
            Pane::ResultsList => {
                if let Ok(r) = &mut self.results {
                    r.select_next();
                }
            },
            Pane::Help => {},
        }
    }

    /// Moves the cursor to the previous link.
    pub fn select_previous_list_item(&mut self)
        ensures
            final(self)@ == old(self)@.select_previous(),
    {
        match self.active_pane {
            Pane::ResultsList => {
                if let Ok(r) = &mut self.results {
                    r.select_previous();
                }
            },
            Pane::Help => {},
        }
    }

    /// Moves the cursor to the first link.
    pub fn select_first_list_item(&mut self)
        ensures
            final(self)@ == old(self)@.select_first(),
    {
        match self.active_pane {
            Pane::ResultsList => {
                if let Ok(r) = &mut self.results {
                    r.select_first();
                }
            },
            Pane::Help => {},
        }
    }

    /// Moves the cursor to the last link.
    pub fn select_last_list_item(&mut self)
        ensures
            final(self)@ == old(self)@.select_last(),
    {
        match self.active_pane {
            Pane::ResultsList => {
                if let Ok(r) = &mut self.results {
                    r.select_last();
                }
            },
            Pane::Help => {},
        }
    }

    /// The highlighted link and its index, or nothing when the latest
    /// navigation failed or the list is empty.
    pub fn get_selected_url(&self) -> (selection: Option<(String, usize)>)
        ensures
            match selection {
                Some((url, index)) => self@.selection() == Some((url@, index as nat)),
                None => self@.selection() is None,
            },
    {
        match &self.results {
            Ok(r) => {
                match r.selected {
                    Some(index) => {
                        if index < r.items.len() {
                            Some((r.items[index].clone(), index))
                        } else {
                            None
                        }
                    },
                    None => None,
                }
            },
            Err(_) => None,
        }
    }

    /// Records the size of the terminal and whether it is too small.
    pub fn resize(&mut self, width: u16, height: u16)
        ensures
            final(self)@ == old(self)@.resized(width, height),
    {
        self.terminal_dimensions = TerminalDimensions { width, height };
        self.terminal_too_small = !(width >= crate::tui::common::MIN_TERMINAL_WIDTH && height
            >= crate::tui::common::MIN_TERMINAL_HEIGHT);
    }
}

} // verus!
