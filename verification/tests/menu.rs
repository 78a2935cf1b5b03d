use cargo_fill::field::{Field, ResolverVersion, Setting, FIELD_COUNT, MAIN_FIELD_COUNT};
use cargo_fill::menu::{choose_option, menu, Entry, Preset, Source, Strategy};

#[test]
fn fields_are_numbered_in_the_order_of_asking() {
    assert_eq!(FIELD_COUNT, 23);
    assert_eq!(MAIN_FIELD_COUNT, 11);
    assert_eq!(Field::at(0), Some(Field::Authors));
    assert_eq!(Field::at(1), Some(Field::RustVersion));
    assert_eq!(Field::at(10), Some(Field::Categories));
    assert_eq!(Field::at(11), Some(Field::Workspace));
    assert_eq!(Field::at(22), Some(Field::Resolver));
    assert_eq!(Field::at(23), None);
    for i in 0..FIELD_COUNT {
        assert_eq!(Field::at(i).map(|f| f.ordinal()), Some(i));
    }
}

#[test]
fn every_menu_lets_the_user_skip_and_enter_by_hand() {
    for i in 0..FIELD_COUNT {
        let options = menu(Field::at(i).unwrap());
        assert!(!options.is_empty() && options.len() <= 9);
        assert!(options.contains(&Strategy::Skip));
        assert!(options.iter().any(|s| matches!(s, Strategy::Manual(_))));
    }
}

#[test]
fn the_menus_of_the_derived_fields() {
    assert_eq!(
        menu(Field::Authors),
        vec![
            Strategy::Derive(Source::GitIdentity),
            Strategy::Manual(Entry::List),
            Strategy::Skip
        ]
    );
    assert_eq!(
        menu(Field::RustVersion),
        vec![
            Strategy::Skip,
            Strategy::Derive(Source::ToolchainProbe),
            Strategy::Manual(Entry::Text)
        ]
    );
    assert_eq!(
        menu(Field::Repository),
        vec![
            Strategy::Skip,
            Strategy::Derive(Source::GitRemote),
            Strategy::Manual(Entry::Text)
        ]
    );
}

#[test]
fn the_menus_of_the_other_fields() {
    assert_eq!(
        menu(Field::Documentation),
        vec![
            Strategy::Preset(Preset::DocsRs),
            Strategy::Manual(Entry::Text),
            Strategy::Skip
        ]
    );
    assert_eq!(menu(Field::License), vec![Strategy::Skip, Strategy::Manual(Entry::Text)]);
    assert_eq!(menu(Field::Keywords), vec![Strategy::Skip, Strategy::Manual(Entry::List)]);
    assert_eq!(
        menu(Field::Publish),
        vec![
            Strategy::Skip,
            Strategy::Manual(Entry::Flag),
            Strategy::Manual(Entry::List)
        ]
    );
    assert_eq!(
        menu(Field::Autotests),
        vec![
            Strategy::Skip,
            Strategy::Preset(Preset::Disabled),
            Strategy::Manual(Entry::Flag)
        ]
    );
    assert_eq!(
        menu(Field::Resolver),
        vec![
            Strategy::Skip,
            Strategy::Preset(Preset::ResolverV1),
            Strategy::Preset(Preset::ResolverV2),
            Strategy::Manual(Entry::Resolver)
        ]
    );
}

#[test]
fn a_line_picks_the_option_it_numbers() {
    let options = menu(Field::RustVersion);
    assert_eq!(choose_option(&options, "1"), Some(Strategy::Skip));
    assert_eq!(
        choose_option(&options, "2"),
        Some(Strategy::Derive(Source::ToolchainProbe))
    );
    assert_eq!(choose_option(&options, "3"), Some(Strategy::Manual(Entry::Text)));
}

#[test]
fn anything_else_picks_nothing() {
    let options = menu(Field::RustVersion);
    for line in ["", "0", "4", "9", "11", " 1", "1 ", "one", "-1", "\u{661}"] {
        assert_eq!(choose_option(&options, line), None);
    }
    assert_eq!(choose_option(&Vec::new(), "1"), None);
}

#[test]
fn presets_propose_their_values() {
    assert_eq!(
        Preset::DocsRs.propose("wizard"),
        Setting::Text("https://docs.rs/wizard".to_string())
    );
    assert_eq!(Preset::ReadmeFile.propose("wizard"), Setting::Text("README.md".to_string()));
    assert_eq!(Preset::LicenseFile.propose("wizard"), Setting::Text("LICENSE".to_string()));
    assert_eq!(Preset::Disabled.propose("wizard"), Setting::Flag(false));
    assert_eq!(
        Preset::ResolverV1.propose("wizard"),
        Setting::Resolver(ResolverVersion::V1)
    );
    assert_eq!(
        Preset::ResolverV2.propose("wizard"),
        Setting::Resolver(ResolverVersion::V2)
    );
}
