//! The decisions of the event loop: what to do with each thing that arrives.
//!
//! The loop itself waits on the terminal and on the channel of intents; this
//! module says, for whatever came, how the state changes and what the loop
//! has to do next.

use super::command::{command_views, Command, CommandView};
use super::event::{event_intent, get_event_handling_msg, Event};
use super::message::{Message, MessageView};
use super::model::{Model, ModelView, RunningState};
use super::update::update;
use crate::text::{trim, trimmed};
use vstd::prelude::*;
use vstd::string::StringExecFns;

verus! {

/// What the loop can receive.
#[derive(Debug)]
pub enum Arrival {
    /// An intent taken from the channel.
    Intent(Message),
    /// An event read from the terminal.
    Terminal(Event),
}

/// What the loop has to do after a step.
#[derive(Debug)]
pub enum Action {
    /// Leave the loop and restore the terminal.
    Exit,
    /// Draw the state, then hand the commands to the executor.
    Render(Vec<Command>),
    /// Put the intent on the channel.
    Send(Message),
    /// Nothing: wait for what comes next.
    Wait,
}

/// The mathematical value of an [`Arrival`].
pub enum ArrivalView {
    Intent(MessageView),
    Terminal(Event),
}

/// The mathematical value of an [`Action`].
pub enum ActionView {
    Exit,
    Render(Seq<CommandView>),
    Send(MessageView),
    Wait,
}

impl View for Arrival {
    type V = ArrivalView;

    open spec fn view(&self) -> ArrivalView {
        match self {
            Arrival::Intent(message) => ArrivalView::Intent(message@),
            Arrival::Terminal(event) => ArrivalView::Terminal(*event),
        }
    }
}

impl View for Action {
    type V = ActionView;

    open spec fn view(&self) -> ActionView {
        match self {
            Action::Exit => ActionView::Exit,
            Action::Render(commands) => ActionView::Render(command_views(commands@)),
            Action::Send(message) => ActionView::Send(message@),
            Action::Wait => ActionView::Wait,
        }
    }
}

/// A counter after one more count: it stops at the largest `u64`.
pub open spec fn counted(counter: nat) -> nat {
    if counter < u64::MAX {
        counter + 1
    } else {
        counter
    }
}

impl ModelView {
    /// The state after one more drawing was counted.
    pub open spec fn render_counted(self) -> ModelView {
        ModelView { render_counter: counted(self.render_counter), ..self }
    }

    /// The state after one more terminal event was counted.
    pub open spec fn event_counted(self) -> ModelView {
        ModelView { event_counter: counted(self.event_counter), ..self }
    }

    /// The state after the loop dealt with `arrival`. An intent is processed,
    /// and a drawing is counted unless the application is done; a terminal
    /// event is counted.
    pub open spec fn stepped(self, arrival: ArrivalView) -> ModelView {
        match arrival {
            ArrivalView::Intent(message) => {
                let after = self.updated(message);
                if after.running_state == RunningState::Done {
                    after
                } else {
                    after.render_counted()
                }
            },
            ArrivalView::Terminal(_) => self.event_counted(),
        }
    }

    /// What the loop has to do after it dealt with `arrival`. After an
    /// intent it leaves if the application is done, else it draws and runs
    /// the commands; a terminal event is passed on as the intent it stands
    /// for, if any.
    pub open spec fn action(self, arrival: ArrivalView) -> ActionView {
        match arrival {
            ArrivalView::Intent(message) => {
                if self.updated(message).running_state == RunningState::Done {
                    ActionView::Exit
                } else {
                    ActionView::Render(self.commands(message))
                }
            },
            ArrivalView::Terminal(event) => match event_intent(self.event_counted(), event) {
                Some(message) => ActionView::Send(message),
                None => ActionView::Wait,
            },
        }
    }
}

impl Model {
    /// Counts one more drawing of the state.
    pub fn count_render(&mut self)
        ensures
            final(self)@ == old(self)@.render_counted(),
    {
        if self.render_counter < u64::MAX {
            self.render_counter += 1;
        }
    }

    /// Counts one more event read from the terminal.
    pub fn count_event(&mut self)
        ensures
            final(self)@ == old(self)@.event_counted(),
    {
        if self.event_counter < u64::MAX {
            self.event_counter += 1;
        }
    }
}

/// What the debug setting has to say for the internal counters to be shown.
pub const DEBUG_ON: &'static str = "1";

/// Tells whether the debug setting asks for the internal counters: whether
/// it says `1`, white space around it aside.
pub fn debug_enabled(setting: &str) -> (enabled: bool)
    ensures
        enabled == (trimmed(setting@) == DEBUG_ON@),
{
    trim(setting) == String::from_str(DEBUG_ON)
}

/// Deals with one arrival: changes the state and tells the loop what to do.
pub fn step(model: &mut Model, arrival: Arrival) -> (action: Action)
    ensures
        final(model)@ == old(model)@.stepped(arrival@),
        action@ == old(model)@.action(arrival@),
{
    match arrival {
        Arrival::Intent(message) => {
            let commands = update(model, message);
            if model.running_state == RunningState::Done {
                Action::Exit
            } else {
                model.count_render();
                Action::Render(commands)
            }
        },
        Arrival::Terminal(event) => {
            model.count_event();
            match get_event_handling_msg(model, event) {
                Some(message) => Action::Send(message),
                None => Action::Wait,
            }
        },
    }
}

} // verus!
