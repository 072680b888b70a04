//! Side effects that the transition function asks for.

use vstd::prelude::*;
use vstd::string::StringExecFns;

verus! {

/// A side effect to be carried out away from the state, whose outcome comes
/// back later as a message.
#[derive(Debug)]
pub enum Command {
    /// Fetch the page at `chosen`; `current` is the page shown when it was chosen.
    GetResults { current: String, chosen: String },
    /// Put the text on the system clipboard.
    YankContentToClipboard(String),
    /// Open the URL in the user's browser.
    OpenInBrowser(String),
}

/// The mathematical value of a [`Command`].
pub enum CommandView {
    GetResults { current: Seq<char>, chosen: Seq<char> },
    YankContentToClipboard(Seq<char>),
    OpenInBrowser(Seq<char>),
}

impl View for Command {
    type V = CommandView;

    open spec fn view(&self) -> CommandView {
        match self {
            Command::GetResults { current, chosen } => CommandView::GetResults {
                current: current@,
                chosen: chosen@,
            },
            Command::YankContentToClipboard(content) => CommandView::YankContentToClipboard(
                content@,
            ),
            Command::OpenInBrowser(url) => CommandView::OpenInBrowser(url@),
        }
    }
}

/// The views of a list of commands, in order.
pub open spec fn command_views(commands: Seq<Command>) -> Seq<CommandView> {
    commands.map_values(|c: Command| c@)
}

impl CommandView {
    /// The short name under which a command is shown.
    pub open spec fn label(self) -> Seq<char> {
        match self {
            CommandView::GetResults { .. } => "get services"@,
            CommandView::YankContentToClipboard(_) => "yank url"@,
            CommandView::OpenInBrowser(_) => "open url"@,
        }
    }
}

impl Clone for Command {
    fn clone(&self) -> (copy: Self)
        ensures
            copy@ == self@,
    {
        match self {
            Command::GetResults { current, chosen } => Command::GetResults {
                current: current.clone(),
                chosen: chosen.clone(),
            },
            Command::YankContentToClipboard(content) => Command::YankContentToClipboard(
                content.clone(),
            ),
            Command::OpenInBrowser(url) => Command::OpenInBrowser(url.clone()),
        }
    }
}

impl Command {
    /// The short name under which the command is shown.
    pub fn label(&self) -> (name: String)
        ensures
            name@ == self@.label(),
    {
        match self {
            Command::GetResults { .. } => String::from_str("get services"),
            Command::YankContentToClipboard(_) => String::from_str("yank url"),
            Command::OpenInBrowser(_) => String::from_str("open url"),
        }
    }
}

} // verus!
