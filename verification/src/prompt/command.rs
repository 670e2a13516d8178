//! The commands of the prompt and the rules that tell them apart.
//!
//! A line is classified by the trigger words it contains, wherever they
//! stand: `exit` inside `exiting` counts. The words are tried in a fixed
//! order, `exit` before `save` before `read`, and the first one found
//! decides; a line with none of them is a question for the model.

use crate::text::{
    after_first, before_first, contains, lemma_contains_beside_separator,
    lemma_first_occurrence_is, lemma_occurrence_beside_separator, lemma_split_at_separator,
    lemma_split_without_separator, occurs_at, split,
};
use vstd::prelude::*;

verus! {

/// Why a line could not be carried out. Every failure is reported to the
/// caller; none ends the session.
#[derive(Debug, Clone, Copy, PartialEq, Eq, Structural)]
pub enum ParseError {
    /// A read command lacks `open`, `close` or both.
    MissingKeywordPair,
    /// A read command names no directory or no search term.
    MalformedReadArguments,
    /// No file under the directory matches the search term, or more than one.
    AmbiguousOrNotFound,
    /// A save command names no file.
    MalformedCommand,
}

impl ParseError {
    /// The notice that tells the user what went wrong.
    pub open spec fn notice(self) -> Seq<char> {
        match self {
            ParseError::MissingKeywordPair =>
                "please ensure you have 'open' and 'close' key words"@,
            ParseError::MalformedReadArguments =>
                "please name a directory and a search term i.e use -> 'open dir search-filename close'"@,
            ParseError::AmbiguousOrNotFound =>
                "be more specific with dir and search filename i.e use -> 'open dir/subdir fine-grained-name close'"@,
            ParseError::MalformedCommand => "please name a file i.e use -> 'save file-name'"@,
        }
    }

    /// The notice that tells the user what went wrong.
    pub fn message(&self) -> (message: String)
        ensures
            message@ == self.notice(),
    {
        match self {
            ParseError::MissingKeywordPair =>
                "please ensure you have 'open' and 'close' key words".to_owned(),
            ParseError::MalformedReadArguments =>
                "please name a directory and a search term i.e use -> 'open dir search-filename close'".to_owned(),
            ParseError::AmbiguousOrNotFound =>
                "be more specific with dir and search filename i.e use -> 'open dir/subdir fine-grained-name close'".to_owned(),
            ParseError::MalformedCommand =>
                "please name a file i.e use -> 'save file-name'".to_owned(),
        }
    }
}

/// What a line of input asks for.
#[derive(Debug, Clone, PartialEq, Eq)]
pub enum Command {
    /// Leave the session.
    Exit,
    /// Save the last reply under this name.
    Save { file_name_stem: String },
    /// Read the one file under `directory` whose name contains `search_term`.
    Read { directory: String, search_term: String },
    /// Send the line to the model as it is.
    Chat { text: String },
}

/// A command with its texts as sequences of characters.
pub enum CommandView {
    Exit,
    Save { file_name_stem: Seq<char> },
    Read { directory: Seq<char>, search_term: Seq<char> },
    Chat { text: Seq<char> },
}

impl View for Command {
    type V = CommandView;

    open spec fn view(&self) -> CommandView {
        match *self {
            Command::Exit => CommandView::Exit,
            Command::Save { file_name_stem } => CommandView::Save {
                file_name_stem: file_name_stem@,
            },
            Command::Read { directory, search_term } => CommandView::Read {
                directory: directory@,
                search_term: search_term@,
            },
            Command::Chat { text } => CommandView::Chat { text: text@ },
        }
    }
}

/// The directory and the search term of a read command.
#[derive(Debug, Clone, PartialEq, Eq)]
pub struct ReadArguments {
    pub directory: String,
    pub search_term: String,
}

/// The arguments of a read command as sequences of characters.
pub struct ReadArgumentsView {
    pub directory: Seq<char>,
    pub search_term: Seq<char>,
}

impl View for ReadArguments {
    type V = ReadArgumentsView;

    open spec fn view(&self) -> ReadArgumentsView {
        ReadArgumentsView { directory: self.directory@, search_term: self.search_term@ }
    }
}

/// The view of a classification: that of the command, or the error.
pub open spec fn command_outcome(outcome: Result<Command, ParseError>) -> Result<
    CommandView,
    ParseError,
> {
    match outcome {
        Ok(command) => Ok(command@),
        Err(error) => Err(error),
    }
}

/// The view of parsed read arguments, or the error.
pub open spec fn arguments_outcome(outcome: Result<ReadArguments, ParseError>) -> Result<
    ReadArgumentsView,
    ParseError,
> {
    match outcome {
        Ok(arguments) => Ok(arguments@),
        Err(error) => Err(error),
    }
}

/// The save command of a line: its second piece between single spaces names
/// the file. A line of one piece names none.
pub open spec fn save_command(input: Seq<char>) -> Result<CommandView, ParseError> {
    let pieces = split(input, ' ');
    if pieces.len() >= 2 {
        Ok(CommandView::Save { file_name_stem: pieces[1] })
    } else {
        Err(ParseError::MalformedCommand)
    }
}

/// What stands in a read command after the first `open` and before the first
/// `close` that follows it; up to the end if none follows.
pub open spec fn between_keywords(input: Seq<char>) -> Seq<char> {
    before_first(after_first(input, "open"@), "close"@)
}

/// The arguments of a read command. Both `open` and `close` must occur in the
/// line. What stands between them is cut at single spaces: the piece before
/// the first space is passed over, the second piece is the directory and the
/// third the search term, which must not be empty.
pub open spec fn read_arguments(input: Seq<char>) -> Result<ReadArgumentsView, ParseError> {
    if !(contains(input, "open"@) && contains(input, "close"@)) {
        Err(ParseError::MissingKeywordPair)
    } else {
        let pieces = split(between_keywords(input), ' ');
        if pieces.len() < 3 || pieces[2].len() == 0 {
            Err(ParseError::MalformedReadArguments)
        } else {
            Ok(ReadArgumentsView { directory: pieces[1], search_term: pieces[2] })
        }
    }
}

/// The read command of a line.
pub open spec fn read_command(input: Seq<char>) -> Result<CommandView, ParseError> {
    match read_arguments(input) {
        Ok(arguments) => Ok(
            CommandView::Read {
                directory: arguments.directory,
                search_term: arguments.search_term,
            },
        ),
        Err(error) => Err(error),
    }
}

/// The line is one for the read command: it contains `read`, and neither
/// `exit` nor `save`, which come first.
pub open spec fn asks_to_read(input: Seq<char>) -> bool {
    !contains(input, "exit"@) && !contains(input, "save"@) && contains(input, "read"@)
}

/// The command of a line: the first of `exit`, `save` and `read` that the
/// line contains decides, and a line with none of them is sent as it is.
pub open spec fn classification(input: Seq<char>) -> Result<CommandView, ParseError> {
    if contains(input, "exit"@) {
        Ok(CommandView::Exit)
    } else if contains(input, "save"@) {
        save_command(input)
    } else if contains(input, "read"@) {
        read_command(input)
    } else {
        Ok(CommandView::Chat { text: input })
    }
}

/// A line that contains `exit` is the exit command, wherever the word stands
/// in it, inside another word too, and whatever else the line holds.
pub proof fn lemma_exit_decides(input: Seq<char>)
    requires
        contains(input, "exit"@),
    ensures
        classification(input) == Ok::<CommandView, ParseError>(CommandView::Exit),
{
}

/// The trigger words are tried in one fixed order, `exit`, `save`, `read`:
/// a word decides a line only if no earlier word occurs in it, and a line is
/// sent to the model, unchanged, only if it holds none of the three.
pub proof fn lemma_trigger_words_in_order(input: Seq<char>)
    ensures
        classification(input) == Ok::<CommandView, ParseError>(CommandView::Exit) <==> contains(
            input,
            "exit"@,
        ),
        classification(input) is Ok && classification(input)->Ok_0 is Save ==> contains(
            input,
            "save"@,
        ) && !contains(input, "exit"@),
        classification(input) is Ok && classification(input)->Ok_0 is Read ==> contains(
            input,
            "read"@,
        ) && !contains(input, "save"@) && !contains(input, "exit"@),
        classification(input) is Ok && classification(input)->Ok_0 is Chat <==> !contains(
            input,
            "read"@,
        ) && !contains(input, "save"@) && !contains(input, "exit"@),
        classification(input) is Ok && classification(input)->Ok_0 is Chat ==> classification(
            input,
        ) == Ok::<CommandView, ParseError>(CommandView::Chat { text: input }),
        !contains(input, "exit"@) && contains(input, "save"@) ==> classification(input)
            == save_command(input),
        !contains(input, "exit"@) && !contains(input, "save"@) && contains(input, "read"@)
            ==> classification(input) == read_command(input),
{
}

/// None of the three words holds a space.
proof fn lemma_words_hold_no_space()
    ensures
        !"exit"@.contains(' '),
        !"save"@.contains(' '),
        !"close"@.contains(' '),
{
    reveal_strlit("exit");
    reveal_strlit("save");
    reveal_strlit("close");
}

/// A word of the commands holds neither `exit` nor `save`, unless it is
/// `save` itself.
proof fn lemma_words_hold_no_trigger()
    ensures
        !contains("read"@, "exit"@),
        !contains("read"@, "save"@),
        !contains("open"@, "exit"@),
        !contains("open"@, "save"@),
        !contains("close"@, "exit"@),
        !contains("close"@, "save"@),
        !contains("save"@, "exit"@),
{
    reveal_strlit("read");
    reveal_strlit("open");
    reveal_strlit("close");
    reveal_strlit("exit");
    reveal_strlit("save");
    assert forall|word: Seq<char>, trigger: Seq<char>, at: int|
        trigger.len() == 4 && word.len() <= 5 && word[0] != trigger[0] && word[1] != trigger[0]
            && occurs_at(word, trigger, at) implies false by {
        assert(word.subrange(at, at + 4)[0] == trigger[0]);
    }
}

/// In a line that begins with `read open`, the first `open` is that one,
/// and what follows it is the rest of the line.
proof fn lemma_open_of_read_form(rest: Seq<char>)
    ensures
        contains("read open"@ + rest, "open"@),
        after_first("read open"@ + rest, "open"@) == rest,
{
    reveal_strlit("read open");
    reveal_strlit("open");
    let line = "read open"@ + rest;
    assert(line.subrange(5, 9) =~= "open"@);
    assert forall|before: int| 0 <= before < 5 implies !occurs_at(line, "open"@, before) by {
        if occurs_at(line, "open"@, before) {
            assert(line.subrange(before, before + 4)[0] == 'o');
        }
    }
    lemma_first_occurrence_is(line, "open"@, 5);
    assert(line.skip(9) =~= rest);
}

/// Where a directory and a search term without `close`, each after a space,
/// are followed by a space and `close`, that `close` is the first, and what
/// stands before it ends with the space.
proof fn lemma_close_of_read_form(directory: Seq<char>, search_term: Seq<char>)
    requires
        !contains(directory, "close"@),
        !contains(search_term, "close"@),
    ensures
        ({
            let named = seq![' '] + directory + seq![' '] + search_term;
            &&& contains(named + seq![' '] + "close"@, "close"@)
            &&& before_first(named + seq![' '] + "close"@, "close"@) == named + seq![' ']
        }),
{
    reveal_strlit("close");
    let none = Seq::<char>::empty();
    let space = seq![' '];
    let named = space + directory + space + search_term;
    let rest = named + space + "close"@;
    let closed = named.len() as int + 1;
    assert(rest.subrange(closed, closed + 5) =~= "close"@);
    assert forall|before: int| 0 <= before < closed implies !occurs_at(rest, "close"@, before) by {
        if occurs_at(rest, "close"@, before) {
            lemma_occurrence_beside_separator(named, ' ', "close"@, "close"@, before);
            assert(named =~= (space + directory) + space + search_term);
            lemma_occurrence_beside_separator(
                space + directory,
                ' ',
                search_term,
                "close"@,
                before,
            );
            if occurs_at(space + directory, "close"@, before) {
                assert(space + directory =~= none + space + directory);
                lemma_occurrence_beside_separator(none, ' ', directory, "close"@, before);
            }
        }
    }
    lemma_first_occurrence_is(rest, "close"@, closed);
    assert(rest.take(closed) =~= named + space);
}

/// A directory and a search term without a space, each after a space and
/// followed by one more, are the second and the third of four pieces.
proof fn lemma_pieces_of_read_form(directory: Seq<char>, search_term: Seq<char>)
    requires
        !directory.contains(' '),
        !search_term.contains(' '),
    ensures
        split(seq![' '] + directory + seq![' '] + search_term + seq![' '], ' ') == seq![
            Seq::<char>::empty(),
            directory,
            search_term,
            Seq::<char>::empty(),
        ],
{
    let none = Seq::<char>::empty();
    let space = seq![' '];
    let named = space + directory + space + search_term;
    assert(named + space =~= named + space + none);
    lemma_split_at_separator(named, ' ', none);
    assert(named =~= (space + directory) + space + search_term);
    lemma_split_at_separator(space + directory, ' ', search_term);
    assert(space + directory =~= none + space + directory);
    lemma_split_at_separator(none, ' ', directory);
    lemma_split_without_separator(directory, ' ');
    lemma_split_without_separator(search_term, ' ');
    assert(split(none, ' ') =~= seq![none]);
    assert(split(named + space, ' ') =~= seq![none, directory, search_term, none]);
}

/// The usual form of a read command, `read open <directory> <search-term>
/// close`, names the directory and the search term that stand in it. The two
/// hold no space and no `close`, and the search term is not empty.
pub proof fn lemma_read_form_names_its_arguments(directory: Seq<char>, search_term: Seq<char>)
    requires
        !directory.contains(' '),
        !search_term.contains(' '),
        !contains(directory, "close"@),
        !contains(search_term, "close"@),
        search_term.len() > 0,
    ensures
        read_arguments("read open "@ + directory + " "@ + search_term + " close"@) == Ok::<
            ReadArgumentsView,
            ParseError,
        >(ReadArgumentsView { directory, search_term }),
{
    let line = "read open "@ + directory + " "@ + search_term + " close"@;
    let space = seq![' '];
    let named = space + directory + space + search_term;
    let rest = named + space + "close"@;
    assert(line =~= "read open"@ + rest) by {
        reveal_strlit("read open ");
        reveal_strlit("read open");
        reveal_strlit(" ");
        reveal_strlit(" close");
        reveal_strlit("close");
    }
    lemma_open_of_read_form(rest);
    lemma_close_of_read_form(directory, search_term);
    lemma_pieces_of_read_form(directory, search_term);
    assert(contains(line, "close"@)) by {
        reveal_strlit("read open");
        let at = choose|at: int| occurs_at(rest, "close"@, at);
        assert(line.subrange(9 + at, 9 + at + "close"@.len()) =~= rest.subrange(
            at,
            at + "close"@.len(),
        ));
        assert(occurs_at(line, "close"@, 9 + at));
    }
    assert(between_keywords(line) == named + space);
}

/// A line in the usual form of a read command is a read command for the
/// directory and the search term that stand in it, as long as neither holds
/// `exit` or `save`.
pub proof fn lemma_read_form_is_a_read_command(directory: Seq<char>, search_term: Seq<char>)
    requires
        !directory.contains(' '),
        !search_term.contains(' '),
        !contains(directory, "close"@),
        !contains(search_term, "close"@),
        search_term.len() > 0,
        !contains(directory, "exit"@),
        !contains(search_term, "exit"@),
        !contains(directory, "save"@),
        !contains(search_term, "save"@),
    ensures
        classification("read open "@ + directory + " "@ + search_term + " close"@) == Ok::<
            CommandView,
            ParseError,
        >(CommandView::Read { directory, search_term }),
{
    reveal_strlit("read open ");
    reveal_strlit(" ");
    reveal_strlit(" close");
    reveal_strlit("read");
    reveal_strlit("open");
    reveal_strlit("close");
    lemma_words_hold_no_space();
    lemma_words_hold_no_trigger();
    lemma_read_form_names_its_arguments(directory, search_term);
    let line = "read open "@ + directory + " "@ + search_term + " close"@;
    let space = seq![' '];
    let last = search_term + space + "close"@;
    let named = directory + space + last;
    let opened = "open"@ + space + named;
    assert(line =~= "read"@ + space + opened);
    assert(line.subrange(0, 4) =~= "read"@);
    assert(occurs_at(line, "read"@, 0));
    lemma_contains_beside_separator(search_term, ' ', "close"@, "exit"@);
    lemma_contains_beside_separator(directory, ' ', last, "exit"@);
    lemma_contains_beside_separator("open"@, ' ', named, "exit"@);
    lemma_contains_beside_separator("read"@, ' ', opened, "exit"@);
    lemma_contains_beside_separator(search_term, ' ', "close"@, "save"@);
    lemma_contains_beside_separator(directory, ' ', last, "save"@);
    lemma_contains_beside_separator("open"@, ' ', named, "save"@);
    lemma_contains_beside_separator("read"@, ' ', opened, "save"@);
}

/// The usual form of a save command, `save <file-name>`, is a save command
/// for the name that stands in it, as long as the name holds no space and no
/// `exit`.
pub proof fn lemma_save_form_is_a_save_command(file_name_stem: Seq<char>)
    requires
        !file_name_stem.contains(' '),
        !contains(file_name_stem, "exit"@),
    ensures
        classification("save "@ + file_name_stem) == Ok::<CommandView, ParseError>(
            CommandView::Save { file_name_stem },
        ),
{
    reveal_strlit("save ");
    reveal_strlit("save");
    lemma_words_hold_no_space();
    lemma_words_hold_no_trigger();
    let line = "save "@ + file_name_stem;
    assert(line =~= "save"@ + seq![' '] + file_name_stem);
    assert(line.subrange(0, 4) =~= "save"@);
    assert(occurs_at(line, "save"@, 0));
    lemma_contains_beside_separator("save"@, ' ', file_name_stem, "exit"@);
    lemma_split_at_separator("save"@, ' ', file_name_stem);
    lemma_split_without_separator("save"@, ' ');
    lemma_split_without_separator(file_name_stem, ' ');
    assert(split(line, ' ') =~= seq!["save"@, file_name_stem]);
}

} // verus!
