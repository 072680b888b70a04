//! What the screen says: which view is drawn and the texts that go into it.
//!
//! Layout, colours and the drawing itself are left to the terminal backend.

use super::common::{Pane, TerminalDimensions, MIN_TERMINAL_HEIGHT, MIN_TERMINAL_WIDTH};
use super::model::{MessageKind, Model, ModelView};
use crate::domain::page::{PageDetails, PageDetailsView};
use crate::text::{decimal, decimal_text};
use vstd::prelude::*;
use vstd::string::StringExecFns;

verus! {

/// The name of the application as the status bar shows it.
pub const TITLE: &'static str = " urll ";

/// Said in place of the details of a page that has none.
pub const NO_DETAILS_TEXT: &'static str = "No details found";

/// Starts the details of a page that has a title.
pub const TITLE_PREFIX: &'static str = "Title: ";

/// Separates the two parts of the details of a page.
pub const PARAGRAPH_BREAK: &'static str = "\n\n";

/// Which of the views is drawn.
#[derive(Debug, PartialEq, Eq, Structural, Clone, Copy)]
pub enum Screen {
    /// The notice that the terminal is too small.
    TooSmall,
    /// The help pane.
    Help,
    /// The results list with the details of the page.
    Results,
}

/// How a piece of the status bar is to be set off.
#[derive(Debug, PartialEq, Eq, Structural, Clone, Copy)]
pub enum Tone {
    Title,
    Url,
    Plain,
    Info,
    Error,
}

/// A piece of the status bar.
#[derive(Debug)]
pub struct Segment {
    pub text: String,
    pub tone: Tone,
}

/// The mathematical value of a [`Segment`].
pub struct SegmentView {
    pub text: Seq<char>,
    pub tone: Tone,
}

impl View for Segment {
    type V = SegmentView;

    open spec fn view(&self) -> SegmentView {
        SegmentView { text: self.text@, tone: self.tone }
    }
}

/// The views of the pieces of a status bar, in order.
pub open spec fn segment_views(segments: Seq<Segment>) -> Seq<SegmentView> {
    segments.map_values(|s: Segment| s@)
}

/// The tone in which a message of the given kind is shown.
pub open spec fn tone_of(kind: MessageKind) -> Tone {
    match kind {
        MessageKind::Info => Tone::Info,
        MessageKind::Error => Tone::Error,
    }
}

/// The notice for a terminal of the given size: the size, and the size needed.
pub open spec fn too_small_notice(width: u16, height: u16) -> Seq<char> {
    "\nTerminal size too small:\n  Width = "@ + decimal(width as nat) + " Height = "@ + decimal(
        height as nat,
    ) + "\n\nMinimum dimensions needed:\n  Width = "@ + decimal(MIN_TERMINAL_WIDTH as nat)
        + " Height = "@ + decimal(MIN_TERMINAL_HEIGHT as nat)
        + "\n\nPress (q/<ctrl+c>/<esc> to exit)\n"@
}

impl PageDetailsView {
    /// The details as the details panel shows them.
    pub open spec fn text(self) -> Seq<char> {
        match (self.title, self.description) {
            (None, None) => NO_DETAILS_TEXT@,
            (None, Some(description)) => description,
            (Some(title), None) => TITLE_PREFIX@ + title,
            (Some(title), Some(description)) => TITLE_PREFIX@ + description + PARAGRAPH_BREAK@
                + title,
        }
    }
}

impl ModelView {
    /// The view that is drawn: the notice while the terminal is too small,
    /// else the pane on show.
    pub open spec fn screen(self) -> Screen {
        if self.terminal_too_small {
            Screen::TooSmall
        } else {
            match self.active_pane {
                Pane::Help => Screen::Help,
                Pane::ResultsList => Screen::Results,
            }
        }
    }

    /// The pieces of the status bar that show the internal state.
    pub open spec fn debug_segments(self) -> Seq<SegmentView> {
        seq![
            SegmentView {
                text: match self.last_active_pane {
                    Some(pane) => " ["@ + pane.spec_label() + "]"@,
                    None => " -"@,
                },
                tone: Tone::Plain,
            },
            SegmentView { text: " -> ["@ + self.active_pane.spec_label() + "]"@, tone: Tone::Plain },
            SegmentView {
                text: " [render counter: "@ + decimal(self.render_counter) + "]"@,
                tone: Tone::Plain,
            },
            SegmentView {
                text: " [event counter: "@ + decimal(self.event_counter) + "]"@,
                tone: Tone::Plain,
            },
            SegmentView {
                text: " [dimensions: "@ + decimal(self.terminal_dimensions.width as nat) + "x"@
                    + decimal(self.terminal_dimensions.height as nat) + "] "@,
                tone: Tone::Plain,
            },
        ]
    }

    /// The pieces of the status bar: the name of the application, the URL of
    /// the page on show, the internal state if it was asked for, and the
    /// message on show if there is one.
    pub open spec fn status_bar(self) -> Seq<SegmentView> {
        seq![
            SegmentView { text: TITLE@, tone: Tone::Title },
            SegmentView { text: " ["@ + self.page_details.url + "]"@, tone: Tone::Url },
        ] + (if self.debug {
            self.debug_segments()
        } else {
            Seq::empty()
        }) + (match self.user_message {
            Some(message) => seq![
                SegmentView { text: " "@ + message.value, tone: tone_of(message.kind) },
            ],
            None => Seq::empty(),
        })
    }
}

/// Writes `before`, `inner` and `after` one after another.
fn wrapped(before: &str, inner: &str, after: &str) -> (text: String)
    ensures
        text@ == before@ + inner@ + after@,
{
    String::from_str(before).concat(inner).concat(after)
}

impl TerminalDimensions {
    /// The notice that the terminal is too small: its size, and the size needed.
    pub fn too_small_notice(&self) -> (text: String)
        ensures
            text@ == too_small_notice(self.width, self.height),
    {
        let mut text = String::from_str("\nTerminal size too small:\n  Width = ");
        text.append(decimal_text(self.width as u64).as_str());
        text.append(" Height = ");
        text.append(decimal_text(self.height as u64).as_str());
        text.append("\n\nMinimum dimensions needed:\n  Width = ");
        text.append(decimal_text(MIN_TERMINAL_WIDTH as u64).as_str());
        text.append(" Height = ");
        text.append(decimal_text(MIN_TERMINAL_HEIGHT as u64).as_str());
        text.append("\n\nPress (q/<ctrl+c>/<esc> to exit)\n");
        text
    }
}

impl PageDetails {
    /// The details as the details panel shows them.
    pub fn text(&self) -> (text: String)
        ensures
            text@ == self@.text(),
    {
        match (&self.title, &self.description) {
            (None, None) => String::from_str(NO_DETAILS_TEXT),
            (None, Some(description)) => description.clone(),
            (Some(title), None) => String::from_str(TITLE_PREFIX).concat(title.as_str()),
            (Some(title), Some(description)) => String::from_str(TITLE_PREFIX).concat(
                description.as_str(),
            ).concat(PARAGRAPH_BREAK).concat(title.as_str()),
        }
    }
}

impl Model {
    /// The view that is to be drawn.
    pub fn screen(&self) -> (screen: Screen)
        ensures
            screen == self@.screen(),
    {
        if self.terminal_too_small {
            Screen::TooSmall
        } else {
            match self.active_pane {
                Pane::Help => Screen::Help,
                Pane::ResultsList => Screen::Results,
            }
        }
    }

    /// The pieces of the status bar that show the internal state.
    fn debug_segments(&self) -> (segments: Vec<Segment>)
        ensures
            segment_views(segments@) == self@.debug_segments(),
    {
        let last = match self.last_active_pane {
            Some(pane) => wrapped(" [", pane.label().as_str(), "]"),
            None => String::from_str(" -"),
        };
        let active = wrapped(" -> [", self.active_pane.label().as_str(), "]");
        let renders = wrapped(" [render counter: ", decimal_text(self.render_counter).as_str(), "]");
        let events = wrapped(" [event counter: ", decimal_text(self.event_counter).as_str(), "]");
        let mut dimensions = String::from_str(" [dimensions: ");
        dimensions.append(decimal_text(self.terminal_dimensions.width as u64).as_str());
        dimensions.append("x");
        dimensions.append(decimal_text(self.terminal_dimensions.height as u64).as_str());
        dimensions.append("] ");
        let mut segments: Vec<Segment> = Vec::new();
        segments.push(Segment { text: last, tone: Tone::Plain });
        segments.push(Segment { text: active, tone: Tone::Plain });
        segments.push(Segment { text: renders, tone: Tone::Plain });
        segments.push(Segment { text: events, tone: Tone::Plain });
        segments.push(Segment { text: dimensions, tone: Tone::Plain });
        assert(segment_views(segments@) =~= self@.debug_segments());
        segments
    }

    /// The pieces of the status bar, from left to right.
    pub fn status_bar(&self) -> (segments: Vec<Segment>)
        ensures
            segment_views(segments@) == self@.status_bar(),
    {
        let mut segments: Vec<Segment> = Vec::new();
        segments.push(Segment { text: String::from_str(TITLE), tone: Tone::Title });
        segments.push(
            Segment { text: wrapped(" [", self.page_details.url.as_str(), "]"), tone: Tone::Url },
        );
        if self.debug {
            let mut debug = self.debug_segments();
            let ghost before = segment_views(segments@);
            let ghost added = segment_views(debug@);
            segments.append(&mut debug);
            assert(segment_views(segments@) =~= before + added);
        }
        if let Some(message) = &self.user_message {
            let tone = match message.kind {
                MessageKind::Info => Tone::Info,
                MessageKind::Error => Tone::Error,
            };
            segments.push(
                Segment { text: String::from_str(" ").concat(message.value.as_str()), tone },
            );
        }
        assert(segment_views(segments@) =~= self@.status_bar());
        segments
    }
}

} // verus!
