use oauth_callback::text::{chars_of, find_char, find_subseq, matches_at};

#[test]
fn chars_of_gives_the_characters_in_order() {
    assert_eq!(chars_of(""), Vec::<char>::new());
    assert_eq!(chars_of("a#b"), vec!['a', '#', 'b']);
    assert_eq!(chars_of("h\u{e9}\u{2705}"), vec!['h', '\u{e9}', '\u{2705}']);
}

#[test]
fn find_char_gives_the_first_index() {
    assert_eq!(find_char(&chars_of("a#b#c"), '#'), Some(1));
    assert_eq!(find_char(&chars_of("#"), '#'), Some(0));
    assert_eq!(find_char(&chars_of("abc"), '#'), None);
    assert_eq!(find_char(&chars_of(""), '#'), None);
    assert_eq!(find_char(&chars_of("\u{e9}\u{e9}#"), '#'), Some(2));
}

#[test]
fn matches_at_compares_in_place() {
    let hay = chars_of("xaccess_token=1");
    let needle = chars_of("access_token");
    assert!(matches_at(&hay, &needle, 1));
    assert!(!matches_at(&hay, &needle, 0));
    assert!(!matches_at(&hay, &needle, 2));
    assert!(!matches_at(&hay, &needle, 4));
    assert!(!matches_at(&hay, &needle, 15));
    assert!(!matches_at(&hay, &needle, 16));
    assert!(!matches_at(&hay, &needle, usize::MAX));
}

#[test]
fn matches_at_with_an_empty_needle() {
    let hay = chars_of("abc");
    assert!(matches_at(&hay, &[], 0));
    assert!(matches_at(&hay, &[], 3));
    assert!(!matches_at(&hay, &[], 4));
    assert!(matches_at(&[], &[], 0));
}

#[test]
fn find_subseq_gives_the_first_occurrence() {
    let needle = chars_of("ab");
    assert_eq!(find_subseq(&chars_of("xxabab"), &needle), Some(2));
    assert_eq!(find_subseq(&chars_of("ab"), &needle), Some(0));
    assert_eq!(find_subseq(&chars_of("aab"), &needle), Some(1));
    assert_eq!(find_subseq(&chars_of("ba"), &needle), None);
    assert_eq!(find_subseq(&chars_of("a"), &needle), None);
    assert_eq!(find_subseq(&chars_of(""), &needle), None);
}

#[test]
fn find_subseq_finds_the_empty_needle_at_the_start() {
    assert_eq!(find_subseq(&chars_of("abc"), &[]), Some(0));
    assert_eq!(find_subseq(&[], &[]), Some(0));
}

#[test]
fn find_subseq_agrees_with_the_standard_search() {
    let hays = ["", "a", "access", "access_token", "#access_token=1", "acaccess_tokcess_token", "access_toke"];
    let needles = ["", "a", "access_token", "token", "ss_", "x"];
    for hay in hays {
        for needle in needles {
            let found = find_subseq(&chars_of(hay), &chars_of(needle));
            assert_eq!(found, hay.find(needle), "{:?} in {:?}", needle, hay);
        }
    }
}
