//! What the session does with each line, and what it remembers.
//!
//! The session remembers two texts: the content of the file that was last
//! read, which goes along with every question from then on, and the model's
//! last reply, which a save command writes out. For each line this module
//! decides on one action. The caller carries it out and tells the session
//! what came of it: the content of a file, or a reply.

use crate::prompt::command::{classification, Command, CommandView, ParseError};
use crate::prompt::parser::PromptParser;
use crate::prompt::search::{ResolvedPath, ResolvedPathView};
use vstd::prelude::*;
use vstd::string::StringExecFns;

verus! {

/// What the session remembers from one line to the next.
#[derive(Debug, Clone, PartialEq, Eq)]
pub struct ConversationState {
    /// The content of the file that was last read; empty before any was.
    pub included_content: String,
    /// The model's last reply; empty before the first.
    pub last_response: String,
}

/// The state with its texts as sequences of characters.
pub struct ConversationStateView {
    pub included_content: Seq<char>,
    pub last_response: Seq<char>,
}

impl View for ConversationState {
    type V = ConversationStateView;

    open spec fn view(&self) -> ConversationStateView {
        ConversationStateView {
            included_content: self.included_content@,
            last_response: self.last_response@,
        }
    }
}

/// What the caller is to do next.
#[derive(Debug, Clone, PartialEq, Eq)]
pub enum Action {
    /// End the session.
    Leave,
    /// Write `contents` to the file `file_name`. No other action writes.
    Save { file_name: String, contents: String },
    /// Search `directory` for the one file whose name contains `search_term`.
    Search { directory: String, search_term: String },
    /// Read the file at `path` and keep its content for the questions to come.
    Include { path: String },
    /// Send `message` to the model.
    Ask { message: String },
    /// Tell the user of `error` and go on.
    Report { error: ParseError },
    /// Go on to the next line.
    Nothing,
}

/// An action with its texts as sequences of characters.
pub enum ActionView {
    Leave,
    Save { file_name: Seq<char>, contents: Seq<char> },
    Search { directory: Seq<char>, search_term: Seq<char> },
    Include { path: Seq<char> },
    Ask { message: Seq<char> },
    Report { error: ParseError },
    Nothing,
}

impl View for Action {
    type V = ActionView;

    open spec fn view(&self) -> ActionView {
        match *self {
            Action::Leave => ActionView::Leave,
            Action::Save { file_name, contents } => ActionView::Save {
                file_name: file_name@,
                contents: contents@,
            },
            Action::Search { directory, search_term } => ActionView::Search {
                directory: directory@,
                search_term: search_term@,
            },
            Action::Include { path } => ActionView::Include { path: path@ },
            Action::Ask { message } => ActionView::Ask { message: message@ },
            Action::Report { error } => ActionView::Report { error },
            Action::Nothing => ActionView::Nothing,
        }
    }
}

/// The file that a reply is saved to: `<stem>.md` in the directory
/// `documents`.
pub open spec fn saved_file_name(stem: Seq<char>) -> Seq<char> {
    "documents/"@ + stem + ".md"@
}

/// The message that goes to the model: the question alone while nothing was
/// read, and from then on the question, a space and the included content.
pub open spec fn question(included_content: Seq<char>, text: Seq<char>) -> Seq<char> {
    if included_content.len() == 0 {
        text
    } else {
        text + " "@ + included_content
    }
}

/// The action that a command calls for.
pub open spec fn action_for(state: ConversationStateView, command: CommandView) -> ActionView {
    match command {
        CommandView::Exit => ActionView::Leave,
        CommandView::Save { file_name_stem } => if state.last_response.len() == 0 {
            ActionView::Nothing
        } else {
            ActionView::Save {
                file_name: saved_file_name(file_name_stem),
                contents: state.last_response,
            }
        },
        CommandView::Read { directory, search_term } => ActionView::Search {
            directory,
            search_term,
        },
        CommandView::Chat { text } => ActionView::Ask {
            message: question(state.included_content, text),
        },
    }
}

/// The action that a line calls for. An empty line calls for none, and a
/// line that cannot be carried out for a report of the reason.
pub open spec fn next_action(state: ConversationStateView, input: Seq<char>) -> ActionView {
    if input.len() == 0 {
        ActionView::Nothing
    } else {
        match classification(input) {
            Ok(command) => action_for(state, command),
            Err(error) => ActionView::Report { error },
        }
    }
}

/// The action that follows a search.
pub open spec fn action_after_search(resolved: ResolvedPathView) -> ActionView {
    match resolved {
        ResolvedPathView::File(path) => ActionView::Include { path },
        ResolvedPathView::NoUniqueMatch => ActionView::Report {
            error: ParseError::AmbiguousOrNotFound,
        },
    }
}

/// While there is no reply to save, no line makes the session write a file:
/// a save command then calls for nothing at all.
pub proof fn lemma_nothing_to_save(state: ConversationStateView, input: Seq<char>)
    requires
        state.last_response.len() == 0,
    ensures
        !(next_action(state, input) is Save),
        classification(input) is Ok && classification(input)->Ok_0 is Save ==> next_action(
            state,
            input,
        ) == ActionView::Nothing,
{
}

impl ConversationState {
    /// The state at the start of a session: nothing read, no reply.
    pub fn new() -> (state: ConversationState)
        ensures
            state@.included_content.len() == 0,
            state@.last_response.len() == 0,
    {
        ConversationState { included_content: String::new(), last_response: String::new() }
    }

    /// The action that `input` calls for. The state stays as it is.
    pub fn next_action(&self, input: &str) -> (action: Action)
        ensures
            action@ == next_action(self@, input@),
            self@.last_response.len() == 0 ==> !(action is Save),
    {
        if input.is_empty() {
            return Action::Nothing;
        }
        match PromptParser::classify(input) {
            Ok(Command::Exit) => Action::Leave,
            Ok(Command::Save { file_name_stem }) => {
                if self.last_response.as_str().is_empty() {
                    Action::Nothing
                } else {
                    let file_name = "documents/".to_owned().concat(file_name_stem.as_str()).concat(
                        ".md",
                    );
                    Action::Save { file_name, contents: self.last_response.clone() }
                }
            },
            Ok(Command::Read { directory, search_term }) => Action::Search {
                directory,
                search_term,
            },
            Ok(Command::Chat { text }) => {
                if self.included_content.as_str().is_empty() {
                    Action::Ask { message: text }
                } else {
                    let message = text.concat(" ").concat(self.included_content.as_str());
                    Action::Ask { message }
                }
            },
            Err(error) => Action::Report { error },
        }
    }

    /// The action that follows a search: read the file that was found, or
    /// report that no single file matched.
    pub fn action_after_search(resolved: ResolvedPath) -> (action: Action)
        ensures
            action@ == action_after_search(resolved@),
    {
        match resolved {
            ResolvedPath::File(path) => Action::Include { path },
            ResolvedPath::NoUniqueMatch => Action::Report {
                error: ParseError::AmbiguousOrNotFound,
            },
        }
    }

    /// Takes in the content of a file that was read. It takes the place of
    /// what was included before; the last reply stays.
    pub fn attach(&mut self, contents: String)
        ensures
            final(self).included_content == contents,
            final(self).last_response == old(self).last_response,
    {
        self.included_content = contents;
    }

    /// Takes in the model's reply to a question. What is included stays.
    pub fn record_reply(&mut self, reply: String)
        ensures
            final(self).last_response == reply,
            final(self).included_content == old(self).included_content,
    {
        self.last_response = reply;
    }
}

} // verus!
