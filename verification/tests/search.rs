use chat_commands::prompt::command::ParseError;
use chat_commands::prompt::search::{candidate_paths, select, DirectoryEntry, ResolvedPath};

fn file(path: &str, file_name: &str) -> DirectoryEntry {
    DirectoryEntry { path: path.to_string(), file_name: file_name.to_string(), is_file: true }
}

fn directory(path: &str, file_name: &str) -> DirectoryEntry {
    DirectoryEntry { path: path.to_string(), file_name: file_name.to_string(), is_file: false }
}

fn found(path: &str) -> ResolvedPath {
    ResolvedPath::File(path.to_string())
}

#[test]
fn one_match_is_selected() {
    let entries = vec![directory("docs", "docs"), file("docs/main.md", "main.md")];
    let resolved = select(&entries, "main");
    assert_eq!(resolved, found("docs/main.md"));
    assert_eq!(resolved.text(), "docs/main.md");
    assert_eq!(resolved.report(), Ok("docs/main.md".to_string()));
}

#[test]
fn two_matches_are_ambiguous() {
    let entries = vec![
        directory("docs", "docs"),
        file("docs/main.md", "main.md"),
        file("docs/main_old.md", "main_old.md"),
    ];
    let resolved = select(&entries, "main");
    assert_eq!(resolved, ResolvedPath::NoUniqueMatch);
    assert_eq!(resolved.text(), "none");
    assert_eq!(resolved.report(), Err(ParseError::AmbiguousOrNotFound));
}

#[test]
fn no_match_is_not_found() {
    let entries = vec![directory("docs", "docs"), file("docs/intro.md", "intro.md")];
    let resolved = select(&entries, "main");
    assert_eq!(resolved, ResolvedPath::NoUniqueMatch);
    assert_eq!(resolved.text(), "none");
    assert_eq!(resolved.report(), Err(ParseError::AmbiguousOrNotFound));
}

#[test]
fn an_empty_listing_holds_no_match() {
    assert_eq!(select(&Vec::new(), "main"), ResolvedPath::NoUniqueMatch);
}

#[test]
fn a_more_specific_term_tells_two_files_apart() {
    let entries = vec![file("docs/main.md", "main.md"), file("docs/main_old.md", "main_old.md")];
    assert_eq!(select(&entries, "main_old"), found("docs/main_old.md"));
    assert_eq!(select(&entries, "main."), found("docs/main.md"));
}

#[test]
fn directories_are_no_candidates() {
    let entries = vec![
        directory("docs", "docs"),
        directory("docs/main", "main"),
        file("docs/main/main.md", "main.md"),
    ];
    assert_eq!(select(&entries, "main"), found("docs/main/main.md"));
    let entries = vec![directory("docs", "docs"), directory("docs/main", "main")];
    assert_eq!(select(&entries, "main"), ResolvedPath::NoUniqueMatch);
}

#[test]
fn the_name_counts_and_not_the_path() {
    let entries = vec![
        directory("main", "main"),
        file("main/intro.md", "intro.md"),
        file("main/outro.md", "outro.md"),
    ];
    assert_eq!(select(&entries, "main"), ResolvedPath::NoUniqueMatch);
    assert_eq!(select(&entries, "intro"), found("main/intro.md"));
}

#[test]
fn the_term_is_matched_by_case() {
    let entries = vec![file("docs/Main.md", "Main.md"), file("docs/main.md", "main.md")];
    assert_eq!(select(&entries, "main"), found("docs/main.md"));
    assert_eq!(select(&entries, "Main"), found("docs/Main.md"));
    assert_eq!(select(&entries, "MAIN"), ResolvedPath::NoUniqueMatch);
}

#[test]
fn the_term_may_stand_anywhere_in_the_name() {
    let entries = vec![file("docs/the_main_part.md", "the_main_part.md")];
    assert_eq!(select(&entries, "main"), found("docs/the_main_part.md"));
    assert_eq!(select(&entries, ".md"), found("docs/the_main_part.md"));
    assert_eq!(select(&entries, "the"), found("docs/the_main_part.md"));
}

#[test]
fn files_at_any_depth_count() {
    let entries = vec![
        directory("docs", "docs"),
        directory("docs/a", "a"),
        directory("docs/a/b", "b"),
        file("docs/a/b/main.md", "main.md"),
        file("docs/intro.md", "intro.md"),
    ];
    assert_eq!(select(&entries, "main"), found("docs/a/b/main.md"));
}

#[test]
fn the_same_name_in_two_places_is_ambiguous() {
    let entries = vec![file("docs/a/main.md", "main.md"), file("docs/b/main.md", "main.md")];
    assert_eq!(select(&entries, "main"), ResolvedPath::NoUniqueMatch);
}

#[test]
fn the_order_of_the_listing_does_not_matter() {
    let one = vec![
        directory("docs", "docs"),
        file("docs/intro.md", "intro.md"),
        file("docs/main.md", "main.md"),
        file("docs/outro.md", "outro.md"),
    ];
    let other = vec![
        file("docs/outro.md", "outro.md"),
        file("docs/main.md", "main.md"),
        directory("docs", "docs"),
        file("docs/intro.md", "intro.md"),
    ];
    for term in ["main", "intro", "tro", "md", "docs", "none"] {
        assert_eq!(select(&one, term), select(&other, term));
    }
    assert_eq!(select(&one, "main"), found("docs/main.md"));
    assert_eq!(select(&one, "tro"), ResolvedPath::NoUniqueMatch);
}

#[test]
fn selecting_twice_gives_the_same() {
    let entries = vec![file("docs/main.md", "main.md"), file("docs/intro.md", "intro.md")];
    assert_eq!(select(&entries, "main"), select(&entries, "main"));
    assert_eq!(select(&entries, "md"), select(&entries, "md"));
}

#[test]
fn a_path_with_the_word_none_is_still_a_path() {
    let entries = vec![file("docs/none.md", "none.md")];
    assert_eq!(select(&entries, "none"), found("docs/none.md"));
    assert_eq!(select(&entries, "none").report(), Ok("docs/none.md".to_string()));
}

#[test]
fn candidates_come_in_the_order_of_the_listing() {
    let entries = vec![
        directory("docs", "docs"),
        file("docs/main_old.md", "main_old.md"),
        directory("docs/main", "main"),
        file("docs/intro.md", "intro.md"),
        file("docs/main/main.md", "main.md"),
    ];
    assert_eq!(candidate_paths(&entries, "main"), vec!["docs/main_old.md", "docs/main/main.md"]);
    assert_eq!(candidate_paths(&entries, "intro"), vec!["docs/intro.md"]);
    assert_eq!(candidate_paths(&entries, "absent"), Vec::<String>::new());
    assert_eq!(candidate_paths(&Vec::new(), "main"), Vec::<String>::new());
}

#[test]
fn one_candidate_is_the_choice() {
    assert_eq!(ResolvedPath::among(&vec!["docs/main.md".to_string()]), found("docs/main.md"));
}

#[test]
fn no_candidate_or_several_are_no_choice() {
    assert_eq!(ResolvedPath::among(&Vec::new()), ResolvedPath::NoUniqueMatch);
    assert_eq!(
        ResolvedPath::among(&vec!["docs/main.md".to_string(), "docs/main_old.md".to_string()]),
        ResolvedPath::NoUniqueMatch
    );
    assert_eq!(
        ResolvedPath::among(&vec!["docs/main.md".to_string(), "docs/main.md".to_string()]),
        ResolvedPath::NoUniqueMatch
    );
}
