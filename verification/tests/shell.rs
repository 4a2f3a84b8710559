use text_cleaner::greeting::hello;
use text_cleaner::label::snake_case_to_camel_case;
use text_cleaner::text_input::TextInput;
use text_cleaner::theme::Theme;

#[test]
fn hello_greets_a_name_without_spaces() {
    assert_eq!(hello("Ada"), Ok(String::from("Hello, Ada")));
    assert_eq!(hello(""), Ok(String::from("Hello, ")));
    assert_eq!(hello("Zoë\tB"), Ok(String::from("Hello, Zoë\tB")));
}

#[test]
fn hello_refuses_a_name_with_a_space() {
    let refused = Err(String::from("Name should not contain spaces"));
    assert_eq!(hello("Ada Lovelace"), refused);
    assert_eq!(hello(" "), refused);
    assert_eq!(hello("Ada "), refused);
}

#[test]
fn identifiers_become_labels() {
    assert_eq!(snake_case_to_camel_case("trim"), "Trim");
    assert_eq!(snake_case_to_camel_case("remove_all_urls"), "Remove All Urls");
    assert_eq!(
        snake_case_to_camel_case("convert_multiple_spaces_to_single"),
        "Convert Multiple Spaces To Single"
    );
}

#[test]
fn labels_have_one_space_between_words() {
    assert_eq!(snake_case_to_camel_case("__a__b_ \t c__"), "A B C");
    assert_eq!(snake_case_to_camel_case(""), "");
    assert_eq!(snake_case_to_camel_case("_ _"), "");
    assert_eq!(snake_case_to_camel_case("already Upper"), "Already Upper");
    // A vertical tab does not part words.
    assert_eq!(snake_case_to_camel_case("a\u{b}b"), "A\u{b}b");
}

#[test]
fn labels_use_the_upper_case_of_the_first_character() {
    assert_eq!(snake_case_to_camel_case("été_ßen_1st"), "Été SSen 1st");
}

#[test]
fn a_new_input_holds_no_text() {
    assert_eq!(TextInput::new().raw, "");
}

#[test]
fn an_input_takes_what_was_entered() {
    let input = TextInput::new();
    let next = input.reduce(String::from("typed"));
    assert_eq!(next.raw, "typed");
    assert_eq!(next.reduce(String::from("")).raw, "");
    assert_eq!(input.raw, "");
}

#[test]
fn the_light_theme_is_black_on_white() {
    let theme = Theme::light();
    assert_eq!(theme.body_background, "#ffffff");
    assert_eq!(theme.font_color, "#000000");
    assert_eq!(theme.font_family, "Open Sans");
    assert_eq!(theme.font_size, "18px");
}

#[test]
fn the_dark_theme_is_white_on_grey() {
    let theme = Theme::dark();
    assert_eq!(theme.body_background, "#2d2d2d");
    assert_eq!(theme.font_color, "#ffffff");
    assert_eq!(theme.font_family, "Open Sans");
    assert_eq!(theme.font_size, "18px");
}

#[test]
fn the_default_theme_is_white_on_black() {
    let theme = Theme::default();
    assert_eq!(theme.body_background, "#000000");
    assert_eq!(theme.font_color, "#ffffff");
    assert_eq!(theme.font_family, "Open Sans");
    assert_eq!(theme.font_size, "18px");
}

#[test]
fn a_theme_is_written_on_one_line() {
    assert_eq!(
        Theme::light().to_string(),
        "body_background=#ffffff, font_family=Open Sans, font_size=18px, font_color=#000000"
    );
    assert_eq!(
        Theme::default().to_string(),
        "body_background=#000000, font_family=Open Sans, font_size=18px, font_color=#ffffff"
    );
}
