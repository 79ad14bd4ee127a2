use ffmpeg_cluster::path::{
    ensure_absolute_path, file_name, is_absolute, resolve_path, PathParts,
};
use ffmpeg_cluster::table::{Table, TextSet};
use ffmpeg_cluster::text::{
    contains, number_text, parse_number, split, split_lines, split_words, strip_prefix, trim,
    NumberError,
};

#[test]
fn trimming_takes_white_space_off_both_ends() {
    assert_eq!(trim(" \t a b \n"), "a b");
    assert_eq!(trim("\u{3000}x\u{a0}"), "x");
    assert_eq!(trim(" \n "), "");
    assert_eq!(trim("abc"), "abc");
}

#[test]
fn splitting_keeps_empty_fields() {
    assert_eq!(split("a,b", ','), vec!["a", "b"]);
    assert_eq!(split("", ','), vec![""]);
    assert_eq!(split(",x,", ','), vec!["", "x", ""]);
}

#[test]
fn words_are_parted_by_white_space() {
    assert_eq!(
        split_words("-c:v libx264  -preset\tmedium "),
        vec!["-c:v", "libx264", "-preset", "medium"]
    );
    assert!(split_words("   ").is_empty());
}

#[test]
fn lines_end_with_newlines() {
    assert_eq!(split_lines("a\r\nb\n\nc"), vec!["a", "b", "", "c"]);
    assert_eq!(split_lines("a\n"), vec!["a"]);
    assert!(split_lines("").is_empty());
}

#[test]
fn parts_are_found_in_texts() {
    assert!(contains("h264_nvenc", "nvenc"));
    assert!(contains("abc", ""));
    assert!(!contains("abc", "abcd"));
    assert!(!contains("aab", "aba"));
}

#[test]
fn prefixes_are_stripped_once() {
    assert_eq!(strip_prefix("encoded_encoded_x", "encoded_"), "encoded_x");
    assert_eq!(strip_prefix("x_encoded_", "encoded_"), "x_encoded_");
}

#[test]
fn numbers_read_as_the_parser_reads_them() {
    assert!(matches!(parse_number("0"), Ok(0)));
    assert!(matches!(parse_number("+12"), Ok(12)));
    assert!(matches!(parse_number("007"), Ok(7)));
    assert!(matches!(parse_number("18446744073709551615"), Ok(u64::MAX)));
    assert!(matches!(
        parse_number("18446744073709551616"),
        Err(NumberError::TooLarge)
    ));
    assert!(matches!(parse_number(""), Err(NumberError::Empty)));
    assert!(matches!(parse_number("+"), Err(NumberError::InvalidDigit)));
    assert!(matches!(parse_number("-1"), Err(NumberError::InvalidDigit)));
    assert!(matches!(parse_number("1 "), Err(NumberError::InvalidDigit)));
    for text in ["", "+", "-1", "12a", "99999999999999999999"] {
        let ours = parse_number(text).unwrap_err().message();
        let theirs = text.parse::<u64>().unwrap_err().to_string();
        assert_eq!(ours, theirs);
    }
}

#[test]
fn numbers_read_back_what_was_written() {
    for n in [0u64, 7, 10, 12345, u64::MAX] {
        assert_eq!(number_text(n), n.to_string());
        assert!(matches!(parse_number(&number_text(n)), Ok(m) if m == n));
    }
}

#[test]
fn file_names_are_final_components() {
    assert_eq!(file_name("/videos/in.mp4"), "in.mp4");
    assert_eq!(file_name("in.mp4"), "in.mp4");
    assert_eq!(file_name("a/b/"), "b");
    assert_eq!(file_name("a/.."), "");
    assert_eq!(file_name(""), "");
    assert_eq!(file_name("/"), "");
    assert_eq!(file_name("a/part 1: b.mp4"), "part 1: b.mp4");
    assert_eq!(file_name("a/b//"), "b");
    assert_eq!(file_name("a/b/."), "b");
    assert_eq!(file_name("a/./b/.//"), "b");
    assert_eq!(file_name("a/.b"), ".b");
    assert_eq!(file_name("a/../."), "");
    assert_eq!(file_name("./."), "");
    assert_eq!(file_name("/."), "");
    assert_eq!(file_name("a\\b/c d"), "c d");
    assert!(["a\\b", "b"].contains(&file_name("x/a\\b").as_str()));
}

#[test]
fn paths_are_absolute_by_the_rule_of_their_platform() {
    for (path, unix, windows) in [
        ("/a", true, false),
        ("a", false, false),
        ("", false, false),
        ("a:", false, false),
        ("c:a", false, false),
        ("c:/a", false, true),
        ("C:\\a", false, true),
        ("\\a", false, false),
        ("a/c:/b", false, false),
        ("\\\\server\\share", false, true),
        ("//server/share/a", true, true),
        ("/\\s\\s", true, true),
    ] {
        assert_eq!(is_absolute(path, false), unix, "{}", path);
        assert_eq!(is_absolute(path, true), windows, "{}", path);
    }
    for path in ["//server", "//server//a", "///a/b", "/?/a", "1:/a"] {
        assert_eq!(is_absolute(path, true), std::path::Path::new(path).is_absolute());
    }
}

#[test]
fn relative_paths_are_resolved() {
    assert_eq!(
        ensure_absolute_path("a.mp4", Some("base"), Some("/home"), false).parts,
        vec!["base", "a.mp4"]
    );
    assert_eq!(
        ensure_absolute_path("a.mp4", None, Some("/home"), true).parts,
        vec!["/home", "a.mp4"]
    );
    assert_eq!(ensure_absolute_path("a.mp4", None, None, false).parts, vec![".", "a.mp4"]);
    assert_eq!(
        resolve_path("/a.mp4", true, Some("base"), None).parts,
        vec!["/a.mp4"]
    );
    assert_eq!(ensure_absolute_path("/a.mp4", Some("base"), None, false).parts, vec!["/a.mp4"]);
    assert_eq!(
        ensure_absolute_path("/a.mp4", Some("base"), None, true).parts,
        vec!["base", "/a.mp4"]
    );
    assert_eq!(
        ensure_absolute_path("d:/a.mp4", Some("base"), None, true).parts,
        vec!["d:/a.mp4"]
    );
}

#[test]
fn paths_are_joined_piece_by_piece() {
    let p = PathParts::from_text("work").join("server");
    assert_eq!(p.join("x").parts, vec!["work", "server", "x"]);
    assert_eq!(p.clone().parts, vec!["work", "server"]);
}

#[test]
fn tables_hold_each_key_once() {
    let mut t: Table<u64> = Table::new();
    t.insert("a".to_string(), 1);
    t.insert("b".to_string(), 2);
    t.insert("a".to_string(), 3);
    assert_eq!(t.len(), 2);
    assert_eq!(t.get("a"), Some(&3));
    if let Some(v) = t.get_mut("b") {
        *v = 5;
    }
    assert_eq!(t.remove("b"), Some(5));
    assert_eq!(t.remove("b"), None);
    assert!(t.contains_key("a"));
    assert_eq!(t.keys(), vec!["a"]);
    t.set_at(0, 9);
    assert_eq!((t.key_at(0).as_str(), *t.value_at(0)), ("a", 9));
}

#[test]
fn sets_hold_each_text_once() {
    let mut s = TextSet::new();
    s.insert("x".to_string());
    s.insert("x".to_string());
    assert_eq!(s.len(), 1);
    assert!(s.contains("x"));
    assert!(!s.contains("y"));
}
