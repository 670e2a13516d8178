use chat_commands::text::{
    chars_of, copy_range, equals, find, includes, matches_at, split_at, string_of,
};

fn chars(s: &str) -> Vec<char> {
    s.chars().collect()
}

fn pieces(text: &str) -> Vec<String> {
    split_at(&chars(text), ' ').iter().map(|piece| piece.iter().collect()).collect()
}

#[test]
fn chars_and_back() {
    assert_eq!(chars_of("abc"), vec!['a', 'b', 'c']);
    assert_eq!(chars_of(""), Vec::<char>::new());
    assert_eq!(chars_of("l'été"), vec!['l', '\'', 'é', 't', 'é']);
    assert_eq!(string_of(&vec!['a', 'b', 'c']), "abc");
    assert_eq!(string_of(&Vec::new()), "");
    assert_eq!(string_of(&chars_of("日本語 text")), "日本語 text");
}

#[test]
fn find_gives_the_leftmost_position() {
    assert_eq!(find(&chars("please exit now"), &chars("exit")), Some(7));
    assert_eq!(find(&chars("exit exit"), &chars("exit")), Some(0));
    assert_eq!(find(&chars("aaab"), &chars("ab")), Some(2));
    assert_eq!(find(&chars("abc"), &chars("c")), Some(2));
    assert_eq!(find(&chars("abc"), &chars("abc")), Some(0));
}

#[test]
fn find_gives_none_where_the_pattern_is_absent() {
    assert_eq!(find(&chars("please stay"), &chars("exit")), None);
    assert_eq!(find(&chars("exi"), &chars("exit")), None);
    assert_eq!(find(&chars(""), &chars("exit")), None);
    assert_eq!(find(&chars("e x i t"), &chars("exit")), None);
}

#[test]
fn find_counts_characters() {
    assert_eq!(find(&chars("été exit"), &chars("exit")), Some(4));
}

#[test]
fn the_empty_pattern_is_found_at_the_start() {
    assert_eq!(find(&chars("abc"), &chars("")), Some(0));
    assert_eq!(find(&chars(""), &chars("")), Some(0));
    assert!(includes(&chars("abc"), &chars("")));
}

#[test]
fn includes_says_whether_the_pattern_occurs() {
    assert!(includes(&chars("exiting"), &chars("exit")));
    assert!(includes(&chars("main_old.md"), &chars("main")));
    assert!(!includes(&chars("Main.md"), &chars("main")));
    assert!(!includes(&chars("mai"), &chars("main")));
}

#[test]
fn matches_at_looks_at_one_position() {
    assert!(matches_at(&chars("please exit"), &chars("exit"), 7));
    assert!(!matches_at(&chars("please exit"), &chars("exit"), 6));
    assert!(!matches_at(&chars("please exit"), &chars("exit"), 8));
    assert!(!matches_at(&chars("please exit"), &chars("exit"), 100));
    assert!(matches_at(&chars("abc"), &chars(""), 3));
    assert!(!matches_at(&chars("abc"), &chars(""), 4));
}

#[test]
fn equals_compares_whole_texts() {
    assert!(equals(&chars("Q4_0"), "Q4_0"));
    assert!(!equals(&chars("Q4_0"), "Q4_1"));
    assert!(!equals(&chars("Q4_0"), "Q4_"));
    assert!(!equals(&chars("Q4_"), "Q4_0"));
    assert!(equals(&chars(""), ""));
}

#[test]
fn copy_range_copies_the_positions_asked_for() {
    assert_eq!(copy_range(&chars("read open docs"), 5, 9), chars("open"));
    assert_eq!(copy_range(&chars("abc"), 0, 3), chars("abc"));
    assert_eq!(copy_range(&chars("abc"), 1, 1), chars(""));
    assert_eq!(copy_range(&chars("abc"), 3, 3), chars(""));
}

#[test]
fn split_cuts_at_every_separator() {
    assert_eq!(pieces("save notes"), vec!["save", "notes"]);
    assert_eq!(pieces(" docs main "), vec!["", "docs", "main", ""]);
    assert_eq!(pieces("a  b"), vec!["a", "", "b"]);
    assert_eq!(pieces("abc"), vec!["abc"]);
    assert_eq!(pieces(""), vec![""]);
    assert_eq!(pieces(" "), vec!["", ""]);
    assert_eq!(pieces("  "), vec!["", "", ""]);
}

#[test]
fn split_agrees_with_the_standard_library() {
    for text in ["", " ", "a", " a", "a ", "a b", "a  b", "  a b  c ", "read open docs main close"] {
        let expected: Vec<String> = text.split(' ').map(|piece| piece.to_string()).collect();
        assert_eq!(pieces(text), expected);
    }
}

#[test]
fn find_agrees_with_the_standard_library() {
    let texts = ["", "a", "ab", "aab", "abab", "exit", "please exit now", "openclose", "aaaa"];
    let patterns = ["", "a", "b", "ab", "aa", "exit", "open", "close", "ba"];
    for text in texts {
        for pattern in patterns {
            assert_eq!(find(&chars(text), &chars(pattern)), text.find(pattern));
            assert_eq!(includes(&chars(text), &chars(pattern)), text.contains(pattern));
        }
    }
}
