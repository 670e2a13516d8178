use chat_commands::prompt::command::{ParseError, ReadArguments};
use chat_commands::prompt::parser::PromptParser;

fn arguments(directory: &str, search_term: &str) -> Result<ReadArguments, ParseError> {
    Ok(ReadArguments { directory: directory.to_string(), search_term: search_term.to_string() })
}

#[test]
fn arguments_stand_between_open_and_close() {
    assert_eq!(PromptParser::read_arguments("read open docs main close"), arguments("docs", "main"));
    assert_eq!(PromptParser::read_arguments("open docs main close"), arguments("docs", "main"));
    assert_eq!(
        PromptParser::read_arguments("read open docs main close and more"),
        arguments("docs", "main")
    );
}

#[test]
fn missing_search_term_is_malformed() {
    assert_eq!(
        PromptParser::read_arguments("read open docs close"),
        Err(ParseError::MalformedReadArguments)
    );
    assert_eq!(
        PromptParser::read_arguments("read open docs  close"),
        Err(ParseError::MalformedReadArguments)
    );
}

#[test]
fn missing_arguments_are_malformed() {
    assert_eq!(
        PromptParser::read_arguments("read open close"),
        Err(ParseError::MalformedReadArguments)
    );
    assert_eq!(
        PromptParser::read_arguments("read openclose"),
        Err(ParseError::MalformedReadArguments)
    );
    assert_eq!(
        PromptParser::read_arguments("read open docsclose"),
        Err(ParseError::MalformedReadArguments)
    );
}

#[test]
fn missing_keywords_are_reported() {
    assert_eq!(PromptParser::read_arguments("read docs main"), Err(ParseError::MissingKeywordPair));
    assert_eq!(
        PromptParser::read_arguments("read open docs main"),
        Err(ParseError::MissingKeywordPair)
    );
    assert_eq!(
        PromptParser::read_arguments("read docs main close"),
        Err(ParseError::MissingKeywordPair)
    );
    assert_eq!(PromptParser::read_arguments(""), Err(ParseError::MissingKeywordPair));
}

#[test]
fn the_piece_before_the_first_space_is_passed_over() {
    assert_eq!(
        PromptParser::read_arguments("read openly docs main close"),
        arguments("docs", "main")
    );
}

#[test]
fn the_search_term_may_end_at_close() {
    assert_eq!(PromptParser::read_arguments("read open docs mainclose"), arguments("docs", "main"));
}

#[test]
fn the_first_open_and_the_first_close_after_it_count() {
    assert_eq!(
        PromptParser::read_arguments("read open a open b close"),
        arguments("a", "open")
    );
    assert_eq!(
        PromptParser::read_arguments("read open docs main close other close"),
        arguments("docs", "main")
    );
}

#[test]
fn a_close_before_open_does_not_end_the_arguments() {
    assert_eq!(
        PromptParser::read_arguments("close read open docs main"),
        arguments("docs", "main")
    );
}

#[test]
fn an_empty_directory_is_passed_on() {
    assert_eq!(PromptParser::read_arguments("read open  main close"), arguments("", "main"));
}

#[test]
fn resolving_reports_missing_keywords() {
    assert_eq!(
        PromptParser::resolve_read_command("read docs main"),
        Err(ParseError::MissingKeywordPair)
    );
}

#[test]
fn resolving_reports_malformed_arguments() {
    assert_eq!(
        PromptParser::resolve_read_command("read open docs close"),
        Err(ParseError::MalformedReadArguments)
    );
}
