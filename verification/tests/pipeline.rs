use text_cleaner::catalog::Transformation;
use text_cleaner::config::{ConfigError, ProcessorConfig, TextProcessor};
use text_cleaner::selection::ProcessorConfigNames;

const IDENTIFIERS: [&str; 13] = [
    "trim",
    "remove_leading_spaces",
    "remove_trailing_spaces",
    "remove_empty_lines",
    "convert_multiple_spaces_to_single",
    "remove_all_emojis",
    "remove_all_emails",
    "remove_all_urls",
    "remove_non_ascii_characters",
    "remove_non_alphanumeric_characters",
    "remove_punctuation_marks",
    "remove_letter_accents",
    "normalize_unicode_characters",
];

fn rules_of(config: &ProcessorConfig) -> Vec<Transformation> {
    (0..config.len()).map(|i| config.get(i).unwrap()).collect()
}

#[test]
fn the_catalog_holds_the_thirteen_identifiers_in_order() {
    let rules = Transformation::all();
    assert_eq!(rules.len(), 13);
    for (rule, id) in rules.iter().zip(IDENTIFIERS) {
        assert_eq!(rule.identifier(), id);
    }
}

#[test]
fn every_identifier_resolves_to_its_rule() {
    for rule in Transformation::all() {
        assert_eq!(Transformation::from_name(rule.identifier()), Some(rule));
        let mut config = ProcessorConfig::new();
        assert_eq!(config.try_add(rule.identifier()), Ok(()));
        assert_eq!(rules_of(&config), vec![rule]);
    }
}

#[test]
fn names_that_are_no_identifiers_resolve_to_nothing() {
    for name in ["", "Trim", "trim ", " trim", "trimm", "remove_all_email", "remove-all-urls"] {
        assert_eq!(Transformation::from_name(name), None);
    }
}

#[test]
fn an_unknown_name_is_rejected_and_reported() {
    let mut config = ProcessorConfig::new();
    config.try_add("trim").unwrap();
    config.try_add("remove_all_urls").unwrap();
    let rejected = config.try_add("not_a_real_transform");
    assert_eq!(
        rejected,
        Err(ConfigError::UnknownTransformation(String::from("not_a_real_transform")))
    );
    assert_eq!(rules_of(&config), vec![Transformation::Trim, Transformation::RemoveAllUrls]);
    assert_eq!(config.len(), 2);
    // The pipeline is still usable after the failure.
    config.try_add("remove_empty_lines").unwrap();
    assert_eq!(config.len(), 3);
}

#[test]
fn the_error_names_what_was_not_found() {
    let error = ConfigError::UnknownTransformation(String::from("shout"));
    assert_eq!(error.name(), "shout");
    assert_eq!(error.message(), "Processor shout does not exist");
}

#[test]
fn a_new_pipeline_is_empty() {
    let config = ProcessorConfig::new();
    assert_eq!(config.len(), 0);
    assert_eq!(config.get(0), None);
}

#[test]
fn chain_appends_at_the_end() {
    let mut config = ProcessorConfig::new();
    config.chain(Transformation::RemoveAllEmojis);
    config.chain(Transformation::Trim);
    config.chain(Transformation::RemoveAllEmojis);
    assert_eq!(
        rules_of(&config),
        vec![Transformation::RemoveAllEmojis, Transformation::Trim, Transformation::RemoveAllEmojis]
    );
    assert_eq!(config.get(3), None);
}

#[test]
fn the_empty_engine_gives_text_back_as_it_is() {
    let processor = TextProcessor::new();
    for s in ["", " \n ", "Hello, World!", "日本語 😆 é"] {
        assert_eq!(processor.process(s), s);
    }
}

#[test]
fn rules_run_from_first_to_last() {
    let mut first = ProcessorConfig::new();
    first.try_add("remove_punctuation_marks").unwrap();
    first.try_add("remove_all_urls").unwrap();
    let mut second = ProcessorConfig::new();
    second.try_add("remove_all_urls").unwrap();
    second.try_add("remove_punctuation_marks").unwrap();
    let s = "see https://example.com now";
    // With the punctuation gone first, no URL is left to find.
    assert_eq!(TextProcessor::with_config(first).process(s), "see httpsexamplecom now");
    assert_eq!(TextProcessor::with_config(second).process(s), "see  now");
}

#[test]
fn each_rule_reads_what_the_one_before_wrote() {
    let mut config = ProcessorConfig::new();
    config.chain(Transformation::RemoveAllEmojis);
    config.chain(Transformation::ConvertMultipleSpacesToSingle);
    config.chain(Transformation::Trim);
    let processor = TextProcessor::with_config(config);
    assert_eq!(processor.process(" a 😆 b "), "a b");
    // An engine keeps nothing from one text to the next.
    assert_eq!(processor.process(" a 😆 b "), "a b");
    assert_eq!(processor.process("x"), "x");
}

#[test]
fn the_pipeline_of_a_list_keeps_the_order_of_the_list() {
    let names = vec![String::from("remove_all_urls"), String::from("trim"), String::from("trim")];
    let config = ProcessorConfig::from_names(&names).unwrap();
    assert_eq!(
        rules_of(&config),
        vec![Transformation::RemoveAllUrls, Transformation::Trim, Transformation::Trim]
    );
    assert_eq!(ProcessorConfig::from_names(&Vec::new()).unwrap().len(), 0);
}

#[test]
fn the_pipeline_of_a_list_fails_at_the_first_unknown_name() {
    let names = vec![
        String::from("trim"),
        String::from("shout"),
        String::from("remove_all_urls"),
        String::from("whisper"),
    ];
    match ProcessorConfig::from_names(&names) {
        Err(e) => assert_eq!(e, ConfigError::UnknownTransformation(String::from("shout"))),
        Ok(_) => panic!("a list with unknown names was accepted"),
    }
}

#[test]
fn a_pipeline_builds_from_the_whole_catalog() {
    let all = ProcessorConfigNames::all();
    assert_eq!(all.size(), 13);
    let config = ProcessorConfig::try_from(&all).unwrap();
    assert_eq!(rules_of(&config), Transformation::all());
    let processor = TextProcessor::with_config_names(&all);
    assert!(processor.is_ok());
}

#[test]
fn the_pipeline_of_a_selection_follows_the_catalog() {
    // Whatever order the names were put in, the rules come in catalog order.
    let mut names = ProcessorConfigNames::new();
    names.insert("remove_punctuation_marks");
    names.insert("trim");
    names.insert("remove_all_urls");
    let config = ProcessorConfig::try_from(&names).unwrap();
    assert_eq!(
        rules_of(&config),
        vec![
            Transformation::Trim,
            Transformation::RemoveAllUrls,
            Transformation::RemovePunctuationMarks
        ]
    );
    let processor = TextProcessor::with_config_names(&names).unwrap();
    assert_eq!(processor.process("  see https://example.com, now!  "), "see  now");
}

#[test]
fn the_pipeline_of_the_empty_selection_is_empty() {
    let config = ProcessorConfig::try_from(&ProcessorConfigNames::new()).unwrap();
    assert_eq!(config.len(), 0);
    let processor = TextProcessor::with_config_names(&ProcessorConfigNames::new()).unwrap();
    assert_eq!(processor.process(" as it is "), " as it is ");
}

#[test]
fn a_selection_with_an_unknown_name_builds_no_pipeline() {
    let mut names = ProcessorConfigNames::all();
    names.insert("shout");
    match ProcessorConfig::try_from(&names) {
        Err(e) => assert_eq!(e, ConfigError::UnknownTransformation(String::from("shout"))),
        Ok(_) => panic!("a selection with an unknown name was accepted"),
    }
    assert!(TextProcessor::with_config_names(&names).is_err());
    names.remove("shout");
    assert!(TextProcessor::with_config_names(&names).is_ok());
}

#[test]
fn apply_does_what_the_rule_says() {
    let s = " Å\n\n b  😆 a@b.de x.org é! ";
    let expected = [
        "Å\n\n b  😆 a@b.de x.org é!",
        "Å\n\n b  😆 a@b.de x.org é! ",
        " Å\n\n b  😆 a@b.de x.org é!",
        " Å\n b  😆 a@b.de x.org é! ",
        " Å b 😆 a@b.de x.org é! ",
        " Å\n\n b   a@b.de x.org é! ",
        " Å\n\n b  😆  x.org é! ",
        " Å\n\n b  😆 a@b.de  é! ",
        " \n\n b   a@b.de x.org ! ",
        "Åbabdexorgé",
        " Å\n\n b   abde xorg é ",
        " A\n\n b  😆 a@b.de x.org e! ",
        " Å\n\n b  😆 a@b.de x.org é! ",
    ];
    for (rule, want) in Transformation::all().into_iter().zip(expected) {
        assert_eq!(rule.apply(s), want, "{}", rule.identifier());
    }
}

#[test]
fn on_plain_samples_no_rule_changes_its_own_result() {
    let samples = [" Å\n\n b  😆 a@b.de x.org é! ", "", "  ", "a\n\n\n", "Ǆ ¿? _"];
    for rule in Transformation::all() {
        for s in samples {
            let once = rule.apply(s);
            assert_eq!(rule.apply(&once), once, "{}", rule.identifier());
        }
    }
}

#[test]
fn the_default_pipeline_is_empty() {
    assert_eq!(ProcessorConfig::default().len(), 0);
}
