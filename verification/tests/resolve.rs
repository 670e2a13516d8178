use chat_commands::prompt::command::ParseError;
use chat_commands::prompt::parser::PromptParser;
use chat_commands::prompt::search::DirectoryEntry;

fn file(path: &str, file_name: &str) -> DirectoryEntry {
    DirectoryEntry { path: path.to_string(), file_name: file_name.to_string(), is_file: true }
}

fn directory(path: &str, file_name: &str) -> DirectoryEntry {
    DirectoryEntry { path: path.to_string(), file_name: file_name.to_string(), is_file: false }
}

#[test]
fn read_command_resolves_to_the_one_match() {
    let docs = vec![directory("docs", "docs"), file("docs/main.md", "main.md")];
    assert_eq!(
        PromptParser::resolve_among("read open docs main close", &docs),
        Ok("docs/main.md".to_string())
    );
}

#[test]
fn read_command_with_two_matches_is_ambiguous() {
    let docs = vec![
        directory("docs", "docs"),
        file("docs/main.md", "main.md"),
        file("docs/main_old.md", "main_old.md"),
    ];
    assert_eq!(
        PromptParser::resolve_among("read open docs main close", &docs),
        Err(ParseError::AmbiguousOrNotFound)
    );
}

#[test]
fn read_command_with_no_match_is_not_found() {
    let docs = vec![directory("docs", "docs"), file("docs/intro.md", "intro.md")];
    assert_eq!(
        PromptParser::resolve_among("read open docs main close", &docs),
        Err(ParseError::AmbiguousOrNotFound)
    );
    assert_eq!(
        PromptParser::resolve_among("read open docs main close", &Vec::new()),
        Err(ParseError::AmbiguousOrNotFound)
    );
}

#[test]
fn read_command_without_search_term_is_malformed() {
    let docs = vec![directory("docs", "docs"), file("docs/main.md", "main.md")];
    assert_eq!(
        PromptParser::resolve_among("read open docs close", &docs),
        Err(ParseError::MalformedReadArguments)
    );
}

#[test]
fn read_command_without_keywords_lacks_the_pair() {
    let docs = vec![directory("docs", "docs"), file("docs/main.md", "main.md")];
    assert_eq!(
        PromptParser::resolve_among("read docs main", &docs),
        Err(ParseError::MissingKeywordPair)
    );
    assert_eq!(
        PromptParser::resolve_among("read open docs main", &docs),
        Err(ParseError::MissingKeywordPair)
    );
}

#[test]
fn read_command_resolves_the_same_twice() {
    let docs = vec![
        directory("docs", "docs"),
        file("docs/main.md", "main.md"),
        file("docs/intro.md", "intro.md"),
    ];
    for input in [
        "read open docs main close",
        "read open docs md close",
        "read open docs absent close",
        "read open docs close",
        "read docs main",
    ] {
        assert_eq!(
            PromptParser::resolve_among(input, &docs),
            PromptParser::resolve_among(input, &docs)
        );
    }
}

#[test]
fn read_command_resolves_the_same_in_any_order() {
    let one = vec![
        directory("docs", "docs"),
        file("docs/main.md", "main.md"),
        file("docs/intro.md", "intro.md"),
    ];
    let other = vec![
        file("docs/intro.md", "intro.md"),
        directory("docs", "docs"),
        file("docs/main.md", "main.md"),
    ];
    for input in ["read open docs main close", "read open docs md close", "read open docs x close"]
    {
        assert_eq!(
            PromptParser::resolve_among(input, &one),
            PromptParser::resolve_among(input, &other)
        );
    }
    assert_eq!(
        PromptParser::resolve_among("read open docs main close", &other),
        Ok("docs/main.md".to_string())
    );
}
