use euphony::filesystem::{
    file_name, get_path_extension_or_empty, join_path, parent, with_extension,
};
use euphony::sorting::{sorted_positions, stands_before};
use euphony::text::{
    chars_of, contains_text, find_first_from, find_last, parse_decimal, replace,
    split_into_lines, string_of, string_of_range, to_ascii_lowercase, to_ascii_lowercase_each,
    to_decimal, wrap_line, wrap_lines,
};

#[test]
fn characters_round_trip() {
    let chars = chars_of("h\u{e9}llo");
    assert_eq!(chars, vec!['h', '\u{e9}', 'l', 'l', 'o']);
    assert_eq!(string_of(&chars), "h\u{e9}llo");
    assert_eq!(string_of(&chars_of("")), "");
}

#[test]
fn replace_handles_every_occurrence() {
    assert_eq!(replace("a{X}b{X}", "{X}", "12"), "a12b12");
    assert_eq!(replace("aaa", "aa", "b"), "ba");
    assert_eq!(replace("abc", "abcd", "x"), "abc");
    assert_eq!(replace("", "a", "x"), "");
    assert_eq!(replace("abc", "c", ""), "ab");
}

#[test]
fn replace_with_an_empty_pattern_inserts_everywhere() {
    assert_eq!(replace("ab", "", "-"), "-a-b-");
    assert_eq!(replace("", "", "-"), "-");
    assert_eq!(replace("ab", "", "-"), "ab".replace("", "-"));
}

#[test]
fn replace_agrees_with_the_standard_library() {
    let samples = ["{A}/{B}/{A}", "xx{A", "{A}{A}{A}", "no placeholders", "{{A}}"];
    for sample in samples {
        assert_eq!(replace(sample, "{A}", "{B}"), sample.replace("{A}", "{B}"));
        assert_eq!(replace(sample, "{", ""), sample.replace("{", ""));
    }
}

#[test]
fn lines_are_split_at_line_feeds() {
    assert_eq!(split_into_lines("a\nb"), vec!["a", "b"]);
    assert_eq!(split_into_lines(""), vec![""]);
    assert_eq!(split_into_lines("a\n"), vec!["a", ""]);
    assert_eq!(split_into_lines("\n\n"), vec!["", "", ""]);
}

#[test]
fn lines_are_wrapped_to_the_width() {
    assert_eq!(wrap_line("abcdefg", 3), vec!["abc", "def", "g"]);
    assert_eq!(wrap_line("abc", 3), vec!["abc"]);
    assert_eq!(wrap_line("", 3), vec![""]);
    assert_eq!(wrap_line("abc", 0), Vec::<String>::new());
    assert_eq!(wrap_line("", 0), vec![""]);
    assert_eq!(wrap_lines("abcd\n\nxy", 2), vec!["ab", "cd", "", "xy"]);
}

#[test]
fn lower_case_touches_ascii_letters_only() {
    assert_eq!(to_ascii_lowercase("FLAC"), "flac");
    assert_eq!(to_ascii_lowercase("Mp3-\u{c4}Z"), "mp3-\u{c4}z");
    let lowered = to_ascii_lowercase_each(&vec!["JPG".to_string(), "Png".to_string()]);
    assert_eq!(lowered, vec!["jpg", "png"]);
    assert!(contains_text(&lowered, &"png".to_string()));
    assert!(!contains_text(&lowered, &"PNG".to_string()));
}

#[test]
fn numbers_are_written_in_decimal() {
    assert_eq!(to_decimal(0), "0");
    assert_eq!(to_decimal(7), "7");
    assert_eq!(to_decimal(10), "10");
    assert_eq!(to_decimal(1203), "1203");
    assert_eq!(to_decimal(u64::MAX), u64::MAX.to_string());
}

#[test]
fn paths_are_joined_and_taken_apart() {
    assert_eq!(join_path("/music", "Artist"), "/music/Artist");
    assert_eq!(file_name("/music/Artist/Album"), "Album");
    assert_eq!(file_name("Album"), "Album");
    assert_eq!(file_name("Album/"), "");
    assert_eq!(parent("/music/Artist/Album"), Some("/music/Artist".to_string()));
    assert_eq!(parent("/music"), Some("".to_string()));
    assert_eq!(parent("music"), None);
}

#[test]
fn extensions_are_lower_case_and_without_dot() {
    assert_eq!(get_path_extension_or_empty("01 Intro.FLAC"), "flac");
    assert_eq!(get_path_extension_or_empty("cd1/cover.Jpg"), "jpg");
    assert_eq!(get_path_extension_or_empty("archive.tar.gz"), "gz");
    assert_eq!(get_path_extension_or_empty("README"), "");
    assert_eq!(get_path_extension_or_empty(".hidden"), "");
    assert_eq!(get_path_extension_or_empty("dir.d/file"), "");
    assert_eq!(get_path_extension_or_empty("file."), "");
}

#[test]
fn extensions_are_replaced() {
    assert_eq!(with_extension("a/b/song.flac", "mp3"), "a/b/song.mp3");
    assert_eq!(with_extension("a/b/song", "mp3"), "a/b/song.mp3");
    assert_eq!(with_extension("a.b/song", "mp3"), "a.b/song.mp3");
    assert_eq!(with_extension(".hidden", "mp3"), ".hidden.mp3");
}

#[test]
fn characters_are_found() {
    let chars = chars_of("a/b/c");
    assert_eq!(find_last(&chars, '/'), Some(3));
    assert_eq!(find_last(&chars, 'x'), None);
    assert_eq!(find_first_from(&chars, 0, '/'), 1);
    assert_eq!(find_first_from(&chars, 2, '/'), 3);
    assert_eq!(find_first_from(&chars, 4, '/'), 5);
    assert_eq!(string_of_range(&chars, 2, 5), "b/c");
    assert_eq!(string_of_range(&chars, 2, 2), "");
}

#[test]
fn decimal_numbers_are_read_strictly() {
    let read = |text: &str| {
        let chars = chars_of(text);
        parse_decimal(&chars, 0, chars.len())
    };
    assert_eq!(read("0"), Some(0));
    assert_eq!(read("42"), Some(42));
    assert_eq!(read("18446744073709551615"), Some(u64::MAX));
    assert_eq!(read("18446744073709551616"), None);
    assert_eq!(read("99999999999999999999999"), None);
    assert_eq!(read(""), None);
    assert_eq!(read("007"), None);
    assert_eq!(read("4a"), None);
    assert_eq!(read("-4"), None);
    assert_eq!(read("+4"), None);
    assert_eq!(read(" 4"), None);
    let chars = chars_of("x12y");
    assert_eq!(parse_decimal(&chars, 1, 3), Some(12));
}

#[test]
fn texts_are_ordered_as_in_the_dictionary() {
    assert!(stands_before("a", "b"));
    assert!(!stands_before("b", "a"));
    assert!(!stands_before("a", "a"));
    assert!(stands_before("", "a"));
    assert!(!stands_before("a", ""));
    assert!(!stands_before("", ""));
    assert!(stands_before("ab", "abc"));
    assert!(stands_before("Z", "a"));
    assert!(stands_before("abd", "abe"));
    let samples = ["", "a", "A", "ab", "b", "\u{e9}", "z", "\u{1f3b5}", "\u{800}", "aa"];
    for first in samples {
        for second in samples {
            assert_eq!(stands_before(first, second), first < second, "{first:?} {second:?}");
        }
    }
}

#[test]
fn positions_are_sorted_by_their_keys() {
    let keys: Vec<String> =
        ["pear", "apple", "fig", "apple", "", "Zebra"].iter().map(|key| key.to_string()).collect();
    let positions = sorted_positions(&keys);
    let sorted: Vec<&str> = positions.iter().map(|position| keys[*position].as_str()).collect();
    assert_eq!(sorted, vec!["", "Zebra", "apple", "apple", "fig", "pear"]);
    assert_eq!(positions, vec![4, 5, 1, 3, 2, 0]);
    let mut seen = positions.clone();
    seen.sort();
    assert_eq!(seen, vec![0, 1, 2, 3, 4, 5]);
    assert_eq!(sorted_positions(&vec![]), Vec::<usize>::new());
}
