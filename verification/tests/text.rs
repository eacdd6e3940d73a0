use storyboard::text::{
    chars_of, numeral, rfind, same, same_lowered, starts_with, trim, trim_end, trim_start, Cut,
};

#[test]
fn every_white_space_character_is_trimmed_and_no_other() {
    for code in 0..=0x10ffffu32 {
        if let Some(c) = char::from_u32(code) {
            let text: String = [c, 'x', c].iter().collect();
            assert_eq!(trim(&text, Cut::White), text.trim(), "{code:x}");
        }
    }
}

#[test]
fn trims_keep_what_lies_inside() {
    assert_eq!(trim(" \u{3000}a \t b\n", Cut::White), "a \t b");
    assert_eq!(trim(" \n ", Cut::White), "");
    assert_eq!(trim("", Cut::White), "");
    assert_eq!(trim("//a//b/", Cut::Slash), "a//b");
    assert_eq!(trim_end("//a//", Cut::Slash), "//a");
    assert_eq!(trim_start("//a//", Cut::Slash), "a//");
    assert_eq!(trim_end(" a ", Cut::White), " a");
    assert_eq!(trim_end("é/", Cut::Slash), "é");
}

#[test]
fn trimming_twice_changes_nothing() {
    let once = trim("\u{85} one two \u{a0}", Cut::White);
    assert_eq!(once, "one two");
    assert_eq!(trim(once, Cut::White), once);
}

#[test]
fn more_slashes_at_the_end_change_nothing() {
    assert_eq!(trim_end("https://a.b", Cut::Slash), trim_end("https://a.b///", Cut::Slash));
}

#[test]
fn prefixes_are_found() {
    assert!(starts_with("https://a", "https://"));
    assert!(starts_with("https://", "https://"));
    assert!(starts_with("", ""));
    assert!(!starts_with("https:/", "https://"));
    assert!(!starts_with("Https://a", "https://"));
}

#[test]
fn texts_are_compared_by_their_characters() {
    assert!(same("COMPLETED", "COMPLETED"));
    assert!(!same("COMPLETED", "completed"));
    assert!(same_lowered("Mp4", "mp4"));
    assert!(!same_lowered("mp4", "MP4"));
    assert!(!same_lowered("mp", "mp4"));
    assert!(!same_lowered("É", "é"));
    assert_eq!(chars_of("aé"), vec!['a', 'é']);
}

#[test]
fn last_positions_count_characters() {
    assert_eq!(rfind("é.a.b", '.'), Some(3));
    assert_eq!(rfind("abc", '.'), None);
    assert_eq!(rfind("", '.'), None);
}

#[test]
fn numerals_are_decimal() {
    for n in [0u64, 1, 9, 10, 11, 99, 100, 1_048_576, u64::MAX] {
        assert_eq!(numeral(n), n.to_string());
        assert_eq!(numeral(n).parse::<u64>(), Ok(n));
    }
}
