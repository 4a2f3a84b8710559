use text_cleaner::selection::{toggle, ProcessorConfigNames};

#[test]
fn a_new_selection_is_empty() {
    let names = ProcessorConfigNames::new();
    assert_eq!(names.size(), 0);
    assert!(!names.contains("trim"));
    assert_eq!(names.unknown_name(), None);
}

#[test]
fn the_default_selection_holds_trim_alone() {
    let names = ProcessorConfigNames::default();
    assert_eq!(names.size(), 1);
    assert!(names.contains("trim"));
    assert!(!names.contains("remove_all_urls"));
}

#[test]
fn the_full_selection_holds_every_identifier() {
    let names = ProcessorConfigNames::all();
    assert_eq!(names.size(), 13);
    for rule in text_cleaner::catalog::Transformation::all() {
        assert!(names.contains(rule.identifier()));
    }
    assert!(!names.contains("not_a_real_transform"));
    assert_eq!(names.unknown_name(), None);
}

#[test]
fn insert_adds_a_name_once() {
    let mut names = ProcessorConfigNames::new();
    names.insert("trim");
    assert_eq!(names.size(), 1);
    assert!(names.contains("trim"));
    names.insert("trim");
    assert_eq!(names.size(), 1);
    names.insert("remove_all_urls");
    assert_eq!(names.size(), 2);
    assert!(names.contains("trim") && names.contains("remove_all_urls"));
}

#[test]
fn remove_takes_a_name_out_if_it_is_there() {
    let mut names = ProcessorConfigNames::all();
    names.remove("trim");
    assert_eq!(names.size(), 12);
    assert!(!names.contains("trim"));
    names.remove("trim");
    assert_eq!(names.size(), 12);
    names.remove("never_was_here");
    assert_eq!(names.size(), 12);
    let mut empty = ProcessorConfigNames::new();
    empty.remove("trim");
    assert_eq!(empty.size(), 0);
}

#[test]
fn the_count_follows_the_set() {
    let mut names = ProcessorConfigNames::default();
    let steps = ["a", "b", "a", "trim", "c"];
    let sizes = [2, 3, 3, 3, 4];
    for (name, size) in steps.into_iter().zip(sizes) {
        names.insert(name);
        assert_eq!(names.size(), size);
    }
    for (name, size) in [("a", 3), ("a", 3), ("trim", 2), ("zzz", 2)] {
        names.remove(name);
        assert_eq!(names.size(), size);
    }
}

#[test]
fn reduce_toggles_one_name_and_leaves_the_selection_alone() {
    let names = ProcessorConfigNames::default();
    let without = names.reduce("trim");
    assert_eq!(without.size(), 0);
    assert!(!without.contains("trim"));
    let with = names.reduce("remove_all_urls");
    assert_eq!(with.size(), 2);
    assert!(with.contains("trim") && with.contains("remove_all_urls"));
    // The selection that was reduced is as it was.
    assert_eq!(names.size(), 1);
    assert!(names.contains("trim"));
    // Toggling twice gives the same selection back.
    assert!(with.reduce("remove_all_urls") == names);
    assert!(without.reduce("trim") == names);
}

#[test]
fn toggle_works_on_the_set_of_a_selection() {
    let names = ProcessorConfigNames::all();
    let toggled = toggle(names.functions(), "trim");
    assert_eq!(toggled.len(), 12);
    assert!(!toggled.contains("trim"));
    assert!(names.functions().contains("trim"));
    let back = toggle(&toggled, "trim");
    assert_eq!(back.len(), 13);
    assert!(back.contains("trim"));
}

#[test]
fn selections_are_equal_if_they_hold_the_same_names() {
    let mut a = ProcessorConfigNames::new();
    a.insert("x");
    a.insert("y");
    let mut b = ProcessorConfigNames::new();
    b.insert("y");
    b.insert("x");
    assert!(a == b);
    b.insert("z");
    assert!(a != b);
    assert!(ProcessorConfigNames::new() != ProcessorConfigNames::default());
}

#[test]
fn a_copy_holds_the_same_names_and_lives_apart() {
    let mut names = ProcessorConfigNames::default();
    let copy = names.clone();
    names.insert("remove_all_urls");
    assert_eq!(copy.size(), 1);
    assert!(copy.contains("trim") && !copy.contains("remove_all_urls"));
    assert_eq!(names.size(), 2);
}

#[test]
fn an_unknown_name_in_a_selection_is_found() {
    let mut names = ProcessorConfigNames::all();
    names.insert("shout");
    assert_eq!(names.unknown_name(), Some(String::from("shout")));
    let mut two = ProcessorConfigNames::new();
    two.insert("shout");
    two.insert("whisper");
    let found = two.unknown_name().unwrap();
    assert!(found == "shout" || found == "whisper");
}
