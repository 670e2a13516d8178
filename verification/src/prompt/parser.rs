//! The interpreter of the prompt's lines.

use crate::prompt::command::{
    arguments_outcome, asks_to_read, classification, command_outcome, read_arguments,
    read_command, save_command, Command, CommandView, ParseError, ReadArguments,
};
use crate::prompt::search::{
    candidate_paths, candidates, lemma_selection_ignores_order, listing_of, path_outcome,
    paths_of, report_of, select, selection, texts_of, walk, DirectoryEntry, DirectoryEntryView,
    ResolvedPath,
};
use crate::text::{chars_of, contains, copy_range, find, includes, split_at, string_of};
use vstd::prelude::*;

verus! {

/// What the read command `input` resolves to where `listing` is what lies
/// under its directory: the error of its arguments where they are malformed,
/// and else what the search for its term reports.
pub open spec fn resolution(input: Seq<char>, listing: Seq<DirectoryEntryView>) -> Result<
    Seq<char>,
    ParseError,
> {
    match read_arguments(input) {
        Err(error) => Err(error),
        Ok(arguments) => report_of(selection(listing, arguments.search_term)),
    }
}

/// `outcome` is what the read command `input` resolves to for some listing.
pub open spec fn resolves(input: Seq<char>, outcome: Result<Seq<char>, ParseError>) -> bool {
    exists|listing: Seq<DirectoryEntryView>| outcome == #[trigger] resolution(input, listing)
}

/// What a read command resolves to does not depend on the order in which
/// the walk through its directory comes upon the files. As long as the files
/// stay as they are, resolving the command again gives the same answer.
pub proof fn lemma_resolution_ignores_order(
    input: Seq<char>,
    first: Seq<DirectoryEntryView>,
    second: Seq<DirectoryEntryView>,
)
    requires
        first.to_multiset() == second.to_multiset(),
    ensures
        resolution(input, first) == resolution(input, second),
{
    if let Ok(arguments) = read_arguments(input) {
        lemma_selection_ignores_order(first, second, arguments.search_term);
    }
}

/// A line as the interpreter understands it: the command that it asks for
/// and, for a read command, the path of the file that it resolved to.
#[derive(Debug, Clone, PartialEq, Eq)]
pub struct Interpretation {
    /// The command of the line.
    pub command: Command,
    /// The path of the one file that a read command names; nothing for the
    /// other commands.
    pub resolved_path: Option<String>,
}

/// An interpretation with its texts as sequences of characters.
pub struct InterpretationView {
    pub command: CommandView,
    pub resolved_path: Option<Seq<char>>,
}

impl View for Interpretation {
    type V = InterpretationView;

    open spec fn view(&self) -> InterpretationView {
        InterpretationView {
            command: self.command@,
            resolved_path: match self.resolved_path {
                Some(path) => Some(path@),
                None => None,
            },
        }
    }
}

/// The view of an interpretation, or the error.
pub open spec fn interpretation_outcome(outcome: Result<Interpretation, ParseError>) -> Result<
    InterpretationView,
    ParseError,
> {
    match outcome {
        Ok(line) => Ok(line@),
        Err(error) => Err(error),
    }
}

/// The command of an interpretation, or the error.
pub open spec fn command_of(outcome: Result<Interpretation, ParseError>) -> Result<
    CommandView,
    ParseError,
> {
    match outcome {
        Ok(line) => Ok(line.command@),
        Err(error) => Err(error),
    }
}

/// The path that an interpretation holds, or the error. It says nothing of
/// an interpretation without a path.
pub open spec fn path_of(outcome: Result<Interpretation, ParseError>) -> Result<
    Seq<char>,
    ParseError,
> {
    match outcome {
        Ok(line) => Ok(line@.resolved_path->0),
        Err(error) => Err(error),
    }
}

/// What `command` comes to where `listing` is what lies under the directory
/// of a read command. A read command comes to the path of the one file that
/// the search for its term selects, and fails where the search selects none;
/// the other commands stand as they are, with no path.
pub open spec fn settled(command: CommandView, listing: Seq<DirectoryEntryView>) -> Result<
    InterpretationView,
    ParseError,
> {
    match command {
        CommandView::Read { directory, search_term } => match report_of(
            selection(listing, search_term),
        ) {
            Ok(path) => Ok(InterpretationView { command, resolved_path: Some(path) }),
            Err(error) => Err(error),
        },
        _ => Ok(InterpretationView { command, resolved_path: None }),
    }
}

/// What the line `input` comes to where `listing` is what lies under the
/// directory of a read command: the first of `exit`, `save` and `read` that
/// the line contains decides on the command, a line with none of them is
/// sent as it is, and a read command is resolved to its file.
pub open spec fn interpretation(input: Seq<char>, listing: Seq<DirectoryEntryView>) -> Result<
    InterpretationView,
    ParseError,
> {
    match classification(input) {
        Ok(command) => settled(command, listing),
        Err(error) => Err(error),
    }
}

/// `outcome` is what the line `input` comes to for some listing.
pub open spec fn interprets(input: Seq<char>, outcome: Result<Interpretation, ParseError>) -> bool {
    exists|listing: Seq<DirectoryEntryView>|
        interpretation_outcome(outcome) == #[trigger] interpretation(input, listing)
}

/// What a line comes to does not depend on the order in which the walk
/// through the directory of a read command comes upon the files. As long as
/// the files stay as they are, interpreting the line again gives the same
/// answer.
pub proof fn lemma_interpretation_ignores_order(
    input: Seq<char>,
    first: Seq<DirectoryEntryView>,
    second: Seq<DirectoryEntryView>,
)
    requires
        first.to_multiset() == second.to_multiset(),
    ensures
        interpretation(input, first) == interpretation(input, second),
{
    if let Ok(CommandView::Read { directory, search_term }) = classification(input) {
        lemma_selection_ignores_order(first, second, search_term);
    }
}

/// The interpreter of the prompt's lines. It keeps no state: every call
/// starts from the line it is given.
#[allow(unused)]
pub struct PromptParser {}

impl PromptParser {
    /// The command that `input` asks for, with a read command left as the
    /// directory and the search term that it names: nothing is searched.
    pub fn classify(input: &str) -> (outcome: Result<Command, ParseError>)
        ensures
            command_outcome(outcome) == classification(input@),
            contains(input@, "exit"@) ==> outcome == Ok::<Command, ParseError>(Command::Exit),
    {
        let line = chars_of(input);
        if includes(&line, &chars_of("exit")) {
            Ok(Command::Exit)
        } else if includes(&line, &chars_of("save")) {
            let pieces = split_at(&line, ' ');
            if pieces.len() >= 2 {
                Ok(Command::Save { file_name_stem: string_of(&pieces[1]) })
            } else {
                Err(ParseError::MalformedCommand)
            }
        } else if includes(&line, &chars_of("read")) {
            match Self::read_arguments(input) {
                Ok(arguments) => Ok(
                    Command::Read {
                        directory: arguments.directory,
                        search_term: arguments.search_term,
                    },
                ),
                Err(error) => Err(error),
            }
        } else {
            Ok(Command::Chat { text: string_of(&line) })
        }
    }

    /// Interprets a line: the command that it asks for and, for a read
    /// command, the one file under its directory whose name contains its
    /// search term. `exit` is tried first, then `save`, then `read`; a line
    /// with none of them is a question for the model.
    pub fn parse(input: String) -> (outcome: Result<Interpretation, ParseError>)
        ensures
            interprets(input@, outcome),
            contains(input@, "exit"@) ==> interpretation_outcome(outcome) == Ok::<
                InterpretationView,
                ParseError,
            >(InterpretationView { command: CommandView::Exit, resolved_path: None }),
            !contains(input@, "exit"@) && contains(input@, "save"@) ==> command_of(outcome)
                == save_command(input@),
            !contains(input@, "exit"@) && contains(input@, "save"@) && outcome is Ok
                ==> outcome->Ok_0.resolved_path is None,
            asks_to_read(input@) ==> resolves(input@, path_of(outcome)),
            asks_to_read(input@) && read_arguments(input@) is Err ==> outcome == Err::<
                Interpretation,
                ParseError,
            >(read_arguments(input@)->Err_0),
            asks_to_read(input@) && read_arguments(input@) is Ok && outcome is Err ==> outcome
                == Err::<Interpretation, ParseError>(ParseError::AmbiguousOrNotFound),
            asks_to_read(input@) && outcome is Ok ==> command_of(outcome) == read_command(input@)
                && outcome->Ok_0.resolved_path is Some,
            !contains(input@, "exit"@) && !contains(input@, "save"@) && !contains(
                input@,
                "read"@,
            ) ==> interpretation_outcome(outcome) == Ok::<InterpretationView, ParseError>(
                InterpretationView {
                    command: CommandView::Chat { text: input@ },
                    resolved_path: None,
                },
            ),
    {
        let command = match Self::classify(input.as_str()) {
            Ok(command) => command,
            Err(error) => {
                assert(interpretation_outcome(Err::<Interpretation, ParseError>(error))
                    == interpretation(input@, Seq::empty()));
                assert(asks_to_read(input@) ==> path_of(Err::<Interpretation, ParseError>(error))
                    == resolution(input@, Seq::empty()));
                return Err(error);
            },
        };
        let entries = match &command {
            Command::Read { directory, .. } => walk(directory.as_str()),
            _ => Vec::new(),
        };
        let outcome = Self::settle(command, &entries);
        assert(interpretation_outcome(outcome) == interpretation(input@, listing_of(entries@)));
        assert(asks_to_read(input@) ==> path_of(outcome) == resolution(
            input@,
            listing_of(entries@),
        ));
        outcome
    }

    /// Interprets a line against `entries`, taken as what lies under the
    /// directory of a read command.
    pub fn parse_among(input: &str, entries: &Vec<DirectoryEntry>) -> (outcome: Result<
        Interpretation,
        ParseError,
    >)
        ensures
            interpretation_outcome(outcome) == interpretation(input@, listing_of(entries@)),
    {
        match Self::classify(input) {
            Ok(command) => Self::settle(command, entries),
            Err(error) => Err(error),
        }
    }

    /// Resolves `command` against `entries` where it is a read command, and
    /// leaves it as it is where it is not.
    fn settle(command: Command, entries: &Vec<DirectoryEntry>) -> (outcome: Result<
        Interpretation,
        ParseError,
    >)
        ensures
            interpretation_outcome(outcome) == settled(command@, listing_of(entries@)),
    {
        let found = match &command {
            Command::Read { search_term, .. } => Some(
                select(entries, search_term.as_str()).report(),
            ),
            _ => None,
        };
        match found {
            Some(Ok(path)) => Ok(Interpretation { command, resolved_path: Some(path) }),
            Some(Err(error)) => Err(error),
            None => Ok(Interpretation { command, resolved_path: None }),
        }
    }

    /// Resolves a read command to the path of the one file that it names:
    /// the one regular file under its directory whose name contains its
    /// search term.
    pub fn resolve_read_command(input: &str) -> (outcome: Result<String, ParseError>)
        ensures
            resolves(input@, path_outcome(outcome)),
            read_arguments(input@) is Err ==> outcome == Err::<String, ParseError>(
                read_arguments(input@)->Err_0,
            ),
            read_arguments(input@) is Ok && outcome is Err ==> outcome == Err::<
                String,
                ParseError,
            >(ParseError::AmbiguousOrNotFound),
    {
        match Self::read_arguments(input) {
            Err(error) => Err(error),
            Ok(arguments) => {
                let entries = walk(arguments.directory.as_str());
                let outcome = select(&entries, arguments.search_term.as_str()).report();
                assert(path_outcome(outcome) == resolution(input@, listing_of(entries@)));
                outcome
            },
        }
    }

    /// Resolves a read command against `entries`, taken as what lies under
    /// its directory.
    pub fn resolve_among(input: &str, entries: &Vec<DirectoryEntry>) -> (outcome: Result<
        String,
        ParseError,
    >)
        ensures
            path_outcome(outcome) == resolution(input@, listing_of(entries@)),
    {
        match Self::read_arguments(input) {
            Err(error) => Err(error),
            Ok(arguments) => select(entries, arguments.search_term.as_str()).report(),
        }
    }

    /// Searches the tree under `directory` for the one regular file whose
    /// name contains `search_term`. A directory that does not exist holds no
    /// file.
    pub fn locate(directory: &str, search_term: &str) -> (resolved: ResolvedPath)
        ensures
            exists|listing: Seq<DirectoryEntryView>|
                resolved@ == #[trigger] selection(listing, search_term@),
    {
        let paths = Self::candidates(directory, search_term);
        let resolved = ResolvedPath::among(&paths);
        proof {
            let listing = choose|listing: Seq<DirectoryEntryView>|
                texts_of(paths@) == paths_of(#[trigger] candidates(listing, search_term@));
            assert(resolved@ == selection(listing, search_term@));
        }
        resolved
    }

    /// The paths of the regular files in the tree under `directory` whose
    /// names contain `search_term`, in the order in which the walk through
    /// the tree came upon them.
    pub fn candidates(directory: &str, search_term: &str) -> (paths: Vec<String>)
        ensures
            exists|listing: Seq<DirectoryEntryView>|
                texts_of(paths@) == paths_of(#[trigger] candidates(listing, search_term@)),
    {
        let entries = walk(directory);
        candidate_paths(&entries, search_term)
    }

    /// The directory and the search term that a read command names.
    pub fn read_arguments(input: &str) -> (outcome: Result<ReadArguments, ParseError>)
        ensures
            arguments_outcome(outcome) == read_arguments(input@),
    {
        let line = chars_of(input);
        let open = chars_of("open");
        let close = chars_of("close");
        let opened = match find(&line, &open) {
            Some(at) => at,
            None => { return Err(ParseError::MissingKeywordPair); },
        };
        if !includes(&line, &close) {
            return Err(ParseError::MissingKeywordPair);
        }
        let rest = copy_range(&line, opened + open.len(), line.len());
        let between = match find(&rest, &close) {
            Some(closed) => copy_range(&rest, 0, closed),
            None => rest,
        };
        let pieces = split_at(&between, ' ');
        if pieces.len() < 3 || pieces[2].len() == 0 {
            Err(ParseError::MalformedReadArguments)
        } else {
            Ok(
                ReadArguments {
                    directory: string_of(&pieces[1]),
                    search_term: string_of(&pieces[2]),
                },
            )
        }
    }
}

} // verus!
