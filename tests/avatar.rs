use bonthun::text::{char_count, process_avatar};

#[test]
fn avatar_of_two_words_is_initials() {
    assert_eq!(process_avatar("John Doe"), "JD");
}

#[test]
fn avatar_of_three_words_is_initials() {
    assert_eq!(process_avatar("Mary Ann Lee"), "MAL");
}

#[test]
fn avatar_ignores_repeated_and_outer_spaces() {
    assert_eq!(process_avatar("  Ada   Byron King  "), "ABK");
}

#[test]
fn avatar_of_single_word_is_first_two_chars() {
    assert_eq!(process_avatar("alice"), "al");
}

#[test]
fn avatar_of_short_single_word_is_whole_word() {
    assert_eq!(process_avatar("Q"), "Q");
    assert_eq!(process_avatar(""), "");
}

#[test]
fn avatar_trims_unicode_white_space() {
    assert_eq!(process_avatar("\u{3000}\tbob\u{a0}\n"), "bo");
}

#[test]
fn avatar_with_tab_between_words_is_initials() {
    assert_eq!(process_avatar("ab\tcd"), "ac");
    assert_eq!(process_avatar("John\tDoe"), "JD");
    assert_eq!(process_avatar("Ann\u{2003}Lee"), "AL");
}

#[test]
fn avatar_initials_split_on_any_white_space() {
    assert_eq!(process_avatar("x y\tz"), "xyz");
}

#[test]
fn avatar_keeps_non_ascii_characters() {
    assert_eq!(process_avatar("Élodie Ørsted"), "ÉØ");
    assert_eq!(process_avatar("日本語"), "日本");
}

#[test]
fn char_count_counts_characters_not_bytes() {
    assert_eq!(char_count("héllo"), 5);
    assert_eq!(char_count(""), 0);
}
