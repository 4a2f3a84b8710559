use text_cleaner::emoji::remove_matches;
use text_cleaner::links::{remove_links, Link, LinkKind};
use text_cleaner::spans::{remove_spans, width_of};

#[test]
fn a_range_cuts_out_the_bytes_it_spans() {
    assert_eq!(remove_spans("hello world", &vec![(5, 11)]), "hello");
    assert_eq!(remove_spans("hello world", &vec![(0, 6)]), "world");
    assert_eq!(remove_spans("hello world", &vec![(2, 3), (7, 9)]), "helo wld");
}

#[test]
fn without_ranges_nothing_is_deleted() {
    assert_eq!(remove_spans("héllo 日本", &Vec::new()), "héllo 日本");
    assert_eq!(remove_spans("", &Vec::new()), "");
    assert_eq!(remove_spans("abc", &vec![(1, 1), (2, 1), (7, 3)]), "abc");
}

#[test]
fn ranges_count_bytes_and_delete_characters() {
    // é takes two bytes, 日 and 本 three each, 😆 four.
    let s = "aé日😆本b";
    assert_eq!(s.len(), 14);
    assert_eq!(remove_spans(s, &vec![(1, 3)]), "a日😆本b");
    assert_eq!(remove_spans(s, &vec![(3, 6)]), "aé😆本b");
    assert_eq!(remove_spans(s, &vec![(6, 10)]), "aé日本b");
    assert_eq!(remove_spans(s, &vec![(1, 13)]), "ab");
    assert_eq!(remove_spans(s, &vec![(0, 14)]), "");
}

#[test]
fn a_character_leaves_if_its_first_byte_is_in_a_range() {
    let s = "aé日b";
    // The range starts inside é and ends inside 日: é stays, 日 leaves.
    assert_eq!(remove_spans(s, &vec![(2, 4)]), "aéb");
    // The range holds only bytes inside 日: nothing leaves.
    assert_eq!(remove_spans(s, &vec![(4, 6)]), "aé日b");
}

#[test]
fn ranges_may_overlap_and_come_in_any_order_and_reach_too_far() {
    assert_eq!(remove_spans("0123456789", &vec![(6, 8), (1, 4), (3, 7)]), "089");
    assert_eq!(remove_spans("0123456789", &vec![(8, 1000), (0, 1)]), "1234567");
    assert_eq!(remove_spans("0123456789", &vec![(10, 20), (usize::MAX - 1, usize::MAX)]), "0123456789");
    assert_eq!(remove_spans("0123456789", &vec![(0, usize::MAX)]), "");
}

#[test]
fn characters_have_one_to_four_bytes() {
    assert_eq!(width_of('\0'), 1);
    assert_eq!(width_of('\u{7f}'), 1);
    assert_eq!(width_of('\u{80}'), 2);
    assert_eq!(width_of('\u{7ff}'), 2);
    assert_eq!(width_of('\u{800}'), 3);
    assert_eq!(width_of('\u{ffff}'), 3);
    assert_eq!(width_of('\u{10000}'), 4);
    assert_eq!(width_of('\u{10ffff}'), 4);
    for c in ['a', 'é', '日', '😆', '\u{d7ff}', '\u{e000}'] {
        assert_eq!(width_of(c), c.len_utf8());
    }
}

#[test]
fn only_links_of_the_kind_asked_for_are_deleted() {
    let s = "see a@b.c and x.org now";
    let links = vec![
        Link { start: 4, end: 9, kind: LinkKind::Email },
        Link { start: 14, end: 19, kind: LinkKind::Url },
        Link { start: 0, end: 3, kind: LinkKind::Other },
    ];
    assert_eq!(remove_links(s, &links, LinkKind::Email), "see  and x.org now");
    assert_eq!(remove_links(s, &links, LinkKind::Url), "see a@b.c and  now");
    assert_eq!(remove_links(s, &links, LinkKind::Other), " a@b.c and x.org now");
    assert_eq!(remove_links(s, &Vec::new(), LinkKind::Url), s);
}

#[test]
fn matches_of_a_pattern_are_deleted() {
    assert_eq!(remove_matches(r"\d+", "a1b22c333"), "abc");
    assert_eq!(remove_matches(r"é.", "aébécé"), "aé");
    assert_eq!(remove_matches(r"x", ""), "");
}

#[test]
fn a_pattern_that_does_not_compile_matches_nothing() {
    assert_eq!(remove_matches(r"(", "a(b"), "a(b");
    assert_eq!(remove_matches(r"[a-", "abc"), "abc");
}
