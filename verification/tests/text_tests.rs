use bunny_bot::text::{
    chars_of, contains, ends_with, equal, find, matches_at, replace_first_occurrence, split,
    starts_with, strip_prefix, strip_suffix,
};

fn chars(s: &str) -> Vec<char> {
    s.chars().collect()
}

#[test]
fn chars_of_keeps_every_character_in_order() {
    assert_eq!(chars_of("abc"), vec!['a', 'b', 'c']);
    assert_eq!(chars_of(""), Vec::<char>::new());
    assert_eq!(chars_of("a\u{2022}b"), vec!['a', '\u{2022}', 'b']);
}

#[test]
fn matches_at_checks_the_given_position_only() {
    let s = chars("i.redd.it/abc");
    assert!(matches_at(&s, &chars("i.redd"), 0));
    assert!(matches_at(&s, &chars("redd"), 2));
    assert!(!matches_at(&s, &chars("redd"), 1));
    assert!(matches_at(&s, &chars(""), 13));
    assert!(!matches_at(&s, &chars(""), 14));
    assert!(!matches_at(&s, &chars("abcd"), 10));
    assert!(!matches_at(&chars("ab"), &chars("abc"), 0));
    assert!(!matches_at(&s, &chars("a"), usize::MAX));
}

#[test]
fn find_gives_the_first_position() {
    assert_eq!(find(&chars("abcabc"), &chars("bc")), Some(1));
    assert_eq!(find(&chars("abcabc"), &chars("abc")), Some(0));
    assert_eq!(find(&chars("abcabc"), &chars("cab")), Some(2));
    assert_eq!(find(&chars("abcabc"), &chars("x")), None);
    assert_eq!(find(&chars("abc"), &chars("abcd")), None);
    assert_eq!(find(&chars("abc"), &chars("")), Some(0));
    assert_eq!(find(&chars(""), &chars("")), Some(0));
    assert_eq!(find(&chars(""), &chars("a")), None);
    assert_eq!(find(&chars("aab"), &chars("ab")), Some(1));
}

#[test]
fn equal_compares_characters() {
    assert!(equal("image", "image"));
    assert!(!equal("image", "images"));
    assert!(!equal("images", "image"));
    assert!(!equal("image", "imagf"));
    assert!(equal("", ""));
    assert!(!equal("", "a"));
}

#[test]
fn starts_with_and_ends_with() {
    assert!(starts_with("https://x", "https://"));
    assert!(!starts_with("http://x", "https://"));
    assert!(starts_with("abc", ""));
    assert!(!starts_with("ab", "abc"));
    assert!(ends_with("picture.png", ".png"));
    assert!(!ends_with("picture.png", ".jpg"));
    assert!(ends_with("abc", ""));
    assert!(!ends_with("ng", ".png"));
    assert!(ends_with(".png", ".png"));
}

#[test]
fn contains_finds_a_pattern_anywhere() {
    assert!(contains("hosted:video", "video"));
    assert!(contains("video", "video"));
    assert!(contains("rich:video:x", "video"));
    assert!(!contains("vide", "video"));
    assert!(!contains("image", "video"));
    assert!(contains("anything", ""));
}

#[test]
fn strip_prefix_takes_a_leading_pattern_away() {
    assert_eq!(strip_prefix("https://github.com/a/b", "https://"), "github.com/a/b");
    assert_eq!(strip_prefix("github.com/a/b", "https://"), "github.com/a/b");
    assert_eq!(strip_prefix("github.com/", "github.com/"), "");
    assert_eq!(strip_prefix("aab", "a"), "ab");
    assert_eq!(strip_prefix("\u{e9}t\u{e9}", "\u{e9}"), "t\u{e9}");
}

#[test]
fn strip_suffix_takes_one_trailing_pattern_away() {
    assert_eq!(strip_suffix("/r/x/", "/"), "/r/x");
    assert_eq!(strip_suffix("/r/x//", "/"), "/r/x/");
    assert_eq!(strip_suffix("/r/x", "/"), "/r/x");
    assert_eq!(strip_suffix("/", "/"), "");
    assert_eq!(strip_suffix("", "/"), "");
}

#[test]
fn replace_first_occurrence_changes_only_the_first() {
    assert_eq!(replace_first_occurrence("a-b-c", "-", "+"), "a+b-c");
    assert_eq!(replace_first_occurrence("abc", "x", "y"), "abc");
    assert_eq!(replace_first_occurrence("abc", "abc", ""), "");
    assert_eq!(replace_first_occurrence("abc", "", "x"), "xabc");
    assert_eq!(replace_first_occurrence("aaa", "aa", "b"), "ba");
    assert_eq!(replace_first_occurrence("\u{e9}a\u{e9}a", "a", "bb"), "\u{e9}bb\u{e9}a");
}

#[test]
fn split_cuts_at_every_separator() {
    assert_eq!(split("rust-lang/rust", '/'), vec!["rust-lang", "rust"]);
    assert_eq!(split("a/b/c", '/'), vec!["a", "b", "c"]);
    assert_eq!(split("abc", '/'), vec!["abc"]);
    assert_eq!(split("", '/'), vec![""]);
    assert_eq!(split("/", '/'), vec!["", ""]);
    assert_eq!(split("a/", '/'), vec!["a", ""]);
    assert_eq!(split("/a", '/'), vec!["", "a"]);
    assert_eq!(split("a//b", '/'), vec!["a", "", "b"]);
}

#[test]
fn split_agrees_with_the_standard_library() {
    for s in ["", "/", "a", "a/b", "//", "a/b/", "/a/b/c//d", "\u{e9}/\u{2022}/x"] {
        let expected: Vec<String> = s.split('/').map(String::from).collect();
        assert_eq!(split(s, '/'), expected);
        assert_eq!(split(s, '/').join("/"), s);
    }
}

#[test]
fn search_agrees_with_the_standard_library() {
    let texts = ["", "a", "ab", "aab", "abab", "i.redd.it/x", "https://i.redd.it/gallery/x"];
    let patterns = ["", "a", "b", "ab", "ba", "/gallery/", "i.redd.it/", "http"];
    for s in texts {
        for p in patterns {
            assert_eq!(contains(s, p), s.contains(p));
            assert_eq!(starts_with(s, p), s.starts_with(p));
            assert_eq!(ends_with(s, p), s.ends_with(p));
            assert_eq!(equal(s, p), s == p);
            assert_eq!(strip_prefix(s, p), s.strip_prefix(p).unwrap_or(s));
            assert_eq!(strip_suffix(s, p), s.strip_suffix(p).unwrap_or(s));
            assert_eq!(replace_first_occurrence(s, p, "+"), s.replacen(p, "+", 1));
            assert_eq!(find(&chars(s), &chars(p)), s.find(p));
        }
    }
}
