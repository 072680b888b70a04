//! The input mapper: from what the terminal reports to intents.

use super::common::Pane;
use super::message::{Message, MessageView};
use super::model::{Model, ModelView};
use vstd::prelude::*;

verus! {

/// The key of a keyboard event, as far as the interface tells keys apart.
#[derive(Debug, PartialEq, Eq, Structural, Clone, Copy)]
pub enum KeyCode {
    Backspace,
    Enter,
    Up,
    Down,
    Esc,
    Char(char),
    /// Any key that the interface has no use for.
    Other,
}

/// Whether a key went down, is held, or came up.
#[derive(Debug, PartialEq, Eq, Structural, Clone, Copy)]
pub enum KeyEventKind {
    Press,
    Repeat,
    Release,
}

/// The modifier keys held during a keyboard event.
#[derive(Debug, PartialEq, Eq, Structural, Clone, Copy)]
pub struct KeyModifiers {
    pub shift: bool,
    pub control: bool,
    pub alt: bool,
    pub super_key: bool,
    pub hyper: bool,
    pub meta: bool,
}

impl KeyModifiers {
    /// Control is held and no other modifier is.
    pub open spec fn control_only(self) -> bool {
        self.control && !self.shift && !self.alt && !self.super_key && !self.hyper && !self.meta
    }

    /// Tells whether control is held and no other modifier is.
    pub fn is_control_only(&self) -> (only: bool)
        ensures
            only == self.control_only(),
    {
        self.control && !self.shift && !self.alt && !self.super_key && !self.hyper && !self.meta
    }
}

/// A keyboard event.
#[derive(Debug, PartialEq, Eq, Structural, Clone, Copy)]
pub struct KeyEvent {
    pub code: KeyCode,
    pub modifiers: KeyModifiers,
    pub kind: KeyEventKind,
}

/// What the terminal reports.
#[derive(Debug, PartialEq, Eq, Structural, Clone, Copy)]
pub enum Event {
    Key(KeyEvent),
    /// The terminal took a new size: columns, then rows.
    Resize(u16, u16),
    /// Anything else: focus, mouse, paste.
    Other,
}

/// The keys that quit or go back in every pane and at every terminal size.
pub open spec fn is_quit_key(code: KeyCode) -> bool {
    code == KeyCode::Esc || code == KeyCode::Char('q')
}

/// The intent of `c` pressed with control alone: to quit at once.
pub open spec fn hard_quit(key: KeyEvent) -> Option<MessageView> {
    if key.modifiers.control_only() {
        Some(MessageView::QuitImmediately)
    } else {
        None
    }
}

/// The intent of a key pressed while the results list is on show.
/// `has_list` says whether the latest navigation left a list of links.
pub open spec fn results_list_intent(key: KeyEvent, has_list: bool) -> Option<MessageView> {
    match key.code {
        KeyCode::Enter => if has_list {
            Some(MessageView::UrlChosen)
        } else {
            None
        },
        KeyCode::Backspace => Some(MessageView::GoBack),
        KeyCode::Down => Some(MessageView::GoToNextListItem),
        KeyCode::Up => Some(MessageView::GoToPreviousListItem),
        KeyCode::Esc => Some(MessageView::GoBackOrQuit),
        KeyCode::Char(c) => {
            if c == 'j' {
                Some(MessageView::GoToNextListItem)
            } else if c == 'k' {
                Some(MessageView::GoToPreviousListItem)
            } else if c == 'g' {
                Some(MessageView::GoToFirstListItem)
            } else if c == 'G' {
                Some(MessageView::GoToLastListItem)
            } else if c == 'y' {
                Some(MessageView::YankUrlToClipboard)
            } else if c == 'Y' {
                Some(MessageView::YankUrlsToClipboard)
            } else if c == 'o' {
                Some(MessageView::OpenUrlInBrowser)
            } else if c == '?' {
                Some(MessageView::GoToPane(Pane::Help))
            } else if c == 'q' {
                Some(MessageView::GoBackOrQuit)
            } else if c == 'c' {
                hard_quit(key)
            } else {
                None
            }
        },
        KeyCode::Other => None,
    }
}

/// The intent of a key pressed while the help pane is on show.
pub open spec fn help_intent(key: KeyEvent) -> Option<MessageView> {
    if is_quit_key(key.code) || key.code == KeyCode::Char('?') {
        Some(MessageView::GoBackOrQuit)
    } else if key.code == KeyCode::Char('c') {
        hard_quit(key)
    } else {
        None
    }
}

/// The intent of a keyboard event in the given state. Only presses count;
/// while the terminal is too small only the quit keys are heard.
pub open spec fn key_intent(model: ModelView, key: KeyEvent) -> Option<MessageView> {
    if key.kind != KeyEventKind::Press {
        None
    } else if model.terminal_too_small {
        if is_quit_key(key.code) {
            Some(MessageView::GoBackOrQuit)
        } else {
            None
        }
    } else {
        match model.active_pane {
            Pane::ResultsList => results_list_intent(key, model.results is Ok),
            Pane::Help => help_intent(key),
        }
    }
}

/// The intent of what the terminal reports in the given state. A new size is
/// always passed on; what has no meaning is dropped.
pub open spec fn event_intent(model: ModelView, event: Event) -> Option<MessageView> {
    match event {
        Event::Key(key) => key_intent(model, key),
        Event::Resize(width, height) => Some(MessageView::TerminalResize(width, height)),
        Event::Other => None,
    }
}

/// The view of an intent that may be absent.
pub open spec fn intent_view(intent: Option<Message>) -> Option<MessageView> {
    match intent {
        Some(message) => Some(message@),
        None => None,
    }
}

/// Quits at once if `c` was pressed with control alone.
fn hard_quit_intent(key: &KeyEvent) -> (intent: Option<Message>)
    ensures
        intent_view(intent) == hard_quit(*key),
{
    if key.modifiers.is_control_only() {
        Some(Message::QuitImmediately)
    } else {
        None
    }
}

/// Maps a key pressed in the results list to its intent.
fn results_list_key(model: &Model, key: &KeyEvent) -> (intent: Option<Message>)
    ensures
        intent_view(intent) == results_list_intent(*key, model@.results is Ok),
{
    match key.code {
        KeyCode::Enter => match model.results {
            Ok(_) => Some(Message::UrlChosen),
            Err(_) => None,
        },
        KeyCode::Backspace => Some(Message::GoBack),
        KeyCode::Char('j') | KeyCode::Down => Some(Message::GoToNextListItem),
        KeyCode::Char('k') | KeyCode::Up => Some(Message::GoToPreviousListItem),
        KeyCode::Char('g') => Some(Message::GoToFirstListItem),
        KeyCode::Char('G') => Some(Message::GoToLastListItem),
        KeyCode::Char('y') => Some(Message::YankUrlToClipboard),
        KeyCode::Char('Y') => Some(Message::YankUrlsToClipboard),
        KeyCode::Char('o') => Some(Message::OpenUrlInBrowser),
        KeyCode::Char('?') => Some(Message::GoToPane(Pane::Help)),
        KeyCode::Esc | KeyCode::Char('q') => Some(Message::GoBackOrQuit),
        KeyCode::Char('c') => hard_quit_intent(key),
        _ => None,
    }
}

/// Maps a key pressed in the help pane to its intent.
fn help_key(key: &KeyEvent) -> (intent: Option<Message>)
    ensures
        intent_view(intent) == help_intent(*key),
{
    match key.code {
        KeyCode::Esc | KeyCode::Char('q') | KeyCode::Char('?') => Some(Message::GoBackOrQuit),
        KeyCode::Char('c') => hard_quit_intent(key),
        _ => None,
    }
}

/// Maps what the terminal reports to the intent it stands for in the given
/// state, if it stands for any.
pub fn get_event_handling_msg(model: &Model, event: Event) -> (intent: Option<Message>)
    ensures
        intent_view(intent) == event_intent(model@, event),
{
    match event {
        Event::Key(key_event) => match model.terminal_too_small {
            true => match key_event.kind {
                KeyEventKind::Press => match key_event.code {
                    KeyCode::Esc | KeyCode::Char('q') => Some(Message::GoBackOrQuit),
                    _ => None,
                },
                _ => None,
            },
            false => match key_event.kind {
                KeyEventKind::Press => match model.active_pane {
                    Pane::ResultsList => results_list_key(model, &key_event),
                    Pane::Help => help_key(&key_event),
                },
                _ => None,
            },
        },
        Event::Resize(w, h) => Some(Message::TerminalResize(w, h)),
        Event::Other => None,
    }
}

} // verus!
