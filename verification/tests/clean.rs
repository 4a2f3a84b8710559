use text_cleaner::clean::Clean;

#[test]
pub fn test_remove_empty_lines() {
    let s = String::from("Hello\n\n\nBlah\n\nMeh");
    let observed = s.remove_empty_lines();
    let expected = String::from("Hello\nBlah\nMeh");
    assert_eq!(observed, expected);
}

#[test]
pub fn test_multiple_spaces_to_single() {
    let s = String::from("a   a a a      a");
    let observed = s.convert_multiple_spaces_to_single();
    let expected = String::from("a a a a a");
    assert_eq!(observed, expected);
}

#[test]
pub fn test_remove_all_emojis() {
    let s = String::from("😆😆😆😛abc");
    let observed = s.remove_all_emojis();
    let expected = String::from("abc");
    assert_eq!(observed, expected);
}

#[test]
pub fn test_remove_punctuation_marks() {
    let s = String::from("!hi. wh?at is the weat[h]er lik?e.");
    let observed = s.remove_punctuation_marks();
    let expected = String::from("hi what is the weather like");
    assert_eq!(observed, expected);
}

#[test]
pub fn test_remove_letter_accents() {
    assert_eq!(String::from("TÅRÖÄÆØ").remove_letter_accents(), String::from("TAROAAO"))
}

#[test]
pub fn test_remove_all_emails() {
    let s = String::from("hi there! [my email](someguyo@example.com) blah@example.com");
    let observed = s.remove_all_emails();
    let expected = String::from("hi there! [my email]() ");
    assert_eq!(observed, expected);
}

#[test]
pub fn test_remove_all_urls() {
    let s = String::from("hi www.google.com https://www.facebook.com");
    let observed = s.remove_all_urls();
    let expected = String::from("hi  ");
    assert_eq!(observed, expected);
}

fn text(s: &str) -> String {
    String::from(s)
}

#[test]
fn trim_strips_unicode_whitespace_at_both_ends() {
    assert_eq!(text(" \t\u{a0}a b\u{2003}\n").trim(), "a b");
    assert_eq!(text("\u{3000}x\u{1680}").trim(), "x");
    assert_eq!(text("a").trim(), "a");
}

#[test]
fn trim_of_nothing_but_whitespace_is_empty() {
    assert_eq!(text("").trim(), "");
    assert_eq!(text(" \n\t ").trim(), "");
    assert_eq!(text(" \n\t ").remove_leading_spaces(), "");
    assert_eq!(text(" \n\t ").remove_trailing_spaces(), "");
}

#[test]
fn trim_keeps_what_is_not_whitespace() {
    // U+200B is a zero-width space, which is not whitespace.
    assert_eq!(text("\u{200b}a\u{200b}").trim(), "\u{200b}a\u{200b}");
    assert_eq!(text("\u{feff}a").trim(), "\u{feff}a");
}

#[test]
fn leading_and_trailing_are_stripped_apart() {
    assert_eq!(text("  a b  ").remove_leading_spaces(), "a b  ");
    assert_eq!(text("  a b  ").remove_trailing_spaces(), "  a b");
    assert_eq!(text("\n\na\n").remove_leading_spaces(), "a\n");
    assert_eq!(text("\n\na\n").remove_trailing_spaces(), "\n\na");
}

#[test]
fn trim_twice_is_trim_once() {
    for s in ["  a  ", "", " ", "a b", "\t\na\u{a0}", "é  "] {
        let once = text(s).trim();
        assert_eq!(once.trim(), once);
        let lead = text(s).remove_leading_spaces();
        assert_eq!(lead.remove_leading_spaces(), lead);
        let trail = text(s).remove_trailing_spaces();
        assert_eq!(trail.remove_trailing_spaces(), trail);
    }
}

#[test]
fn single_newlines_stay() {
    assert_eq!(text("a\nb\nc").remove_empty_lines(), "a\nb\nc");
    assert_eq!(text("\na\n").remove_empty_lines(), "\na\n");
    assert_eq!(text("").remove_empty_lines(), "");
}

#[test]
fn newline_runs_become_one_newline() {
    assert_eq!(text("\n\n").remove_empty_lines(), "\n");
    assert_eq!(text("\n\n\n\na\n\n").remove_empty_lines(), "\na\n");
    // Only the line feed counts: a carriage return breaks a run.
    assert_eq!(text("a\r\n\r\nb").remove_empty_lines(), "a\r\n\r\nb");
    assert_eq!(text("a\n \nb").remove_empty_lines(), "a\n \nb");
}

#[test]
fn whitespace_runs_become_one_space() {
    assert_eq!(text("a \n\t b").convert_multiple_spaces_to_single(), "a b");
    assert_eq!(text("\n\n").convert_multiple_spaces_to_single(), " ");
    assert_eq!(text("a\u{a0}\u{2003}b").convert_multiple_spaces_to_single(), "a b");
    assert_eq!(text("  a  ").convert_multiple_spaces_to_single(), " a ");
}

#[test]
fn a_single_whitespace_character_stays_as_it_is() {
    assert_eq!(text("a\nb\tc d").convert_multiple_spaces_to_single(), "a\nb\tc d");
    assert_eq!(text("\t").convert_multiple_spaces_to_single(), "\t");
    assert_eq!(text("").convert_multiple_spaces_to_single(), "");
}

#[test]
fn squeezed_text_has_no_runs_left() {
    for s in ["a   a a a      a", " \n\n x \t\t y  ", "\n\n\n", "no runs"] {
        let out = text(s).convert_multiple_spaces_to_single();
        let chars: Vec<char> = out.chars().collect();
        for pair in chars.windows(2) {
            assert!(!(pair[0].is_whitespace() && pair[1].is_whitespace()));
        }
        assert_eq!(out.convert_multiple_spaces_to_single(), out);
        let lines = text(s).remove_empty_lines();
        assert!(!lines.contains("\n\n"));
        assert_eq!(lines.remove_empty_lines(), lines);
    }
}

#[test]
fn emoji_sequences_leave_as_a_whole() {
    // A flag, a skin-tone sequence, a keycap and a family joined by zero-width joiners.
    assert_eq!(text("a🇸🇪b").remove_all_emojis(), "ab");
    assert_eq!(text("a👍🏽b").remove_all_emojis(), "ab");
    assert_eq!(text("a1\u{fe0f}\u{20e3}b").remove_all_emojis(), "ab");
    assert_eq!(text("a👨\u{200d}👩\u{200d}👧\u{200d}👦b").remove_all_emojis(), "ab");
}

#[test]
fn text_without_emoji_is_left_alone() {
    assert_eq!(text("").remove_all_emojis(), "");
    assert_eq!(text("plain text, 123").remove_all_emojis(), "plain text, 123");
    assert_eq!(text("żółć 日本語").remove_all_emojis(), "żółć 日本語");
}

#[test]
fn characters_next_to_an_emoji_are_not_damaged() {
    assert_eq!(text("é😆ü").remove_all_emojis(), "éü");
    assert_eq!(text("日😛本").remove_all_emojis(), "日本");
}

#[test]
fn what_is_left_of_emoji_can_form_an_emoji() {
    // Between two regional indicators that form no flag stands the flag of
    // Ascension Island; once it is gone the two outer ones form that flag.
    let s = text("\u{1f1e6}\u{1f1e6}\u{1f1e8}\u{1f1e8}");
    let once = s.remove_all_emojis();
    assert_eq!(once, "\u{1f1e6}\u{1f1e8}");
    assert_eq!(once.remove_all_emojis(), "");
}

#[test]
fn punctuation_leaves_and_words_and_whitespace_stay() {
    assert_eq!(text("a_b-c d\te\nf").remove_punctuation_marks(), "a_bc d\te\nf");
    assert_eq!(text("¿qué? — él: «sí»").remove_punctuation_marks(), "qué  él sí");
    assert_eq!(text("日本語、テキスト。").remove_punctuation_marks(), "日本語テキスト");
    assert_eq!(text("").remove_punctuation_marks(), "");
    assert_eq!(text("+-*/").remove_punctuation_marks(), "");
}

#[test]
fn only_word_characters_stay() {
    assert_eq!(text("a_b-c d\te\nf").remove_non_alphanumeric_characters(), "a_bcdef");
    assert_eq!(text("Hello, World! 123").remove_non_alphanumeric_characters(), "HelloWorld123");
    assert_eq!(text("naïve café №5").remove_non_alphanumeric_characters(), "naïvecafé5");
    assert_eq!(text("").remove_non_alphanumeric_characters(), "");
    assert_eq!(text(" \n").remove_non_alphanumeric_characters(), "");
}

#[test]
fn only_ascii_stays() {
    assert_eq!(text("naïve café").remove_non_ascii_characters(), "nave caf");
    assert_eq!(text("a\u{7f}b\u{80}c").remove_non_ascii_characters(), "a\u{7f}bc");
    assert_eq!(text("日本語").remove_non_ascii_characters(), "");
    assert_eq!(text("").remove_non_ascii_characters(), "");
    assert_eq!(text("plain\n\ttext").remove_non_ascii_characters(), "plain\n\ttext");
}

#[test]
fn filters_twice_are_filters_once() {
    for s in ["¿qué? — él", "a_b-c d", "日本語、テ。", "", "!!!"] {
        let p = text(s).remove_punctuation_marks();
        assert_eq!(p.remove_punctuation_marks(), p);
        let w = text(s).remove_non_alphanumeric_characters();
        assert_eq!(w.remove_non_alphanumeric_characters(), w);
        let a = text(s).remove_non_ascii_characters();
        assert_eq!(a.remove_non_ascii_characters(), a);
    }
}

#[test]
fn accents_are_folded_letter_by_letter() {
    assert_eq!(text("čďêƒíó").remove_letter_accents(), "cdefio");
    assert_eq!(text("Crème Brûlée").remove_letter_accents(), "Creme Brulee");
    // A combining mark leaves; a ligature becomes two letters.
    assert_eq!(text("e\u{300}").remove_letter_accents(), "e");
    assert_eq!(text("Œuvre Ǆ").remove_letter_accents(), "OEuvre DZ");
    assert_eq!(text("").remove_letter_accents(), "");
}

#[test]
fn folding_leaves_ascii_and_unknown_characters_alone() {
    let ascii: String = (0u8..128).map(|b| b as char).collect();
    assert_eq!(ascii.remove_letter_accents(), ascii);
    assert_eq!(text("日本語 😆").remove_letter_accents(), "日本語 😆");
    // Each ASCII character stands after what folding made of the text before it.
    assert_eq!(text("Åa-Ǆb\u{301}c").remove_letter_accents(), "Aa-DZbc");
}

#[test]
fn folding_twice_is_folding_once() {
    for s in ["TÅRÖÄÆØ", "Œuvre Ǆ", "e\u{300}", "日本語", ""] {
        let once = text(s).remove_letter_accents();
        assert_eq!(once.remove_letter_accents(), once);
    }
}

#[test]
fn normalization_composes() {
    assert_eq!(text("e\u{301}").normalize_unicode_characters(), "\u{e9}");
    assert_eq!(text("A\u{30a}").normalize_unicode_characters(), "\u{c5}");
    // The ohm sign and the angstrom sign have canonical equivalents.
    assert_eq!(text("\u{2126}\u{212b}").normalize_unicode_characters(), "\u{3a9}\u{c5}");
    assert_eq!(text("plain").normalize_unicode_characters(), "plain");
    assert_eq!(text("").normalize_unicode_characters(), "");
}

#[test]
fn normalization_does_not_fold_compatibility_forms() {
    assert_eq!(text("ﬁ ①").normalize_unicode_characters(), "ﬁ ①");
}

#[test]
fn normalizing_twice_is_normalizing_once() {
    for s in ["e\u{301}", "a\u{328}\u{301}", "\u{1100}\u{1161}\u{11a8}", "ÅΩ", ""] {
        let once = text(s).normalize_unicode_characters();
        assert_eq!(once.normalize_unicode_characters(), once);
    }
}

#[test]
fn an_address_need_not_have_a_dot_in_its_domain() {
    assert_eq!(text("mail root@localhost now").remove_all_emails(), "mail  now");
}

#[test]
fn characters_next_to_an_address_are_not_damaged() {
    assert_eq!(text("é <a@b.de> ü").remove_all_emails(), "é <> ü");
    assert_eq!(text("日本 a@b.de 語").remove_all_emails(), "日本  語");
    assert_eq!(text("«füße» ä.ö@exämple.com!").remove_all_emails().chars().next(), Some('«'));
}

#[test]
fn removing_addresses_leaves_urls_and_plain_text() {
    assert_eq!(text("see https://example.com/a?b=c").remove_all_emails(), "see https://example.com/a?b=c");
    assert_eq!(text("no address here").remove_all_emails(), "no address here");
    assert_eq!(text("").remove_all_emails(), "");
}

#[test]
fn characters_next_to_a_url_are_not_damaged() {
    assert_eq!(text("é (https://example.com/ä) ü").remove_all_urls(), "é () ü");
    assert_eq!(text("😆 example.org 😛").remove_all_urls(), "😆  😛");
}

#[test]
fn removing_urls_leaves_addresses_and_plain_text() {
    assert_eq!(text("mail someone@example.com").remove_all_urls(), "mail someone@example.com");
    assert_eq!(text("no link here").remove_all_urls(), "no link here");
    assert_eq!(text("").remove_all_urls(), "");
}

#[test]
fn what_is_left_of_addresses_can_hold_an_address() {
    let s = text("a@b..a@b");
    let once = s.remove_all_emails();
    assert_eq!(once, "a@b..");
    assert_eq!(once.remove_all_emails(), "..");
}

#[test]
fn what_is_left_of_urls_can_hold_a_url() {
    let s = text("x.org:a.b-://a");
    let once = s.remove_all_urls();
    assert_eq!(once, "x.org:");
    assert_eq!(once.remove_all_urls(), ":");
}
