use cargo_fill::derive::DeriveFailure;
use cargo_fill::field::{Field, ResolverVersion, Setting};
use cargo_fill::lookup::LookupFailure;
use cargo_fill::menu::{menu, Entry, Source};
use cargo_fill::resolution::{step, Action, Event, LoopState, Notice};

fn line(text: &str) -> Event {
    Event::Line(text.to_string())
}

#[test]
fn an_invalid_entry_shows_the_menu_again() {
    let options = menu(Field::Homepage);
    for text in ["9", "0", "3", "", "skip", "1.", "12"] {
        assert_eq!(
            step(&options, "wizard", LoopState::AwaitingChoice, line(text)),
            (
                LoopState::AwaitingChoice,
                Action::ShowMenu(Some(Notice::InvalidChoice))
            )
        );
    }
}

#[test]
fn skipping_ends_the_loop() {
    let options = menu(Field::Homepage);
    let (state, action) = step(&options, "wizard", LoopState::AwaitingChoice, line("1"));
    assert_eq!((state.clone(), action), (LoopState::Skipped, Action::Done));
    assert_eq!(
        step(&options, "wizard", state, line("2")),
        (LoopState::Skipped, Action::Done)
    );
}

#[test]
fn a_preset_is_committed_at_once() {
    let options = menu(Field::Documentation);
    assert_eq!(
        step(&options, "wizard", LoopState::AwaitingChoice, line("1")),
        (
            LoopState::Committed(Setting::Text("https://docs.rs/wizard".to_string())),
            Action::Done
        )
    );
}

#[test]
fn a_manual_text_is_committed_as_entered() {
    let options = menu(Field::Homepage);
    let (state, action) = step(&options, "wizard", LoopState::AwaitingChoice, line("2"));
    assert_eq!(
        (state.clone(), action),
        (LoopState::AwaitingManualInput(Entry::Text), Action::Ask(Entry::Text))
    );
    assert_eq!(
        step(&options, "wizard", state, line("https://example.com, maybe")),
        (
            LoopState::Committed(Setting::Text("https://example.com, maybe".to_string())),
            Action::Done
        )
    );
}

#[test]
fn a_manual_list_is_split_and_trimmed() {
    let options = menu(Field::Keywords);
    let (state, _) = step(&options, "wizard", LoopState::AwaitingChoice, line("2"));
    assert_eq!(
        step(&options, "wizard", state, line("cli, cargo ,manifest")),
        (
            LoopState::Committed(Setting::List(vec![
                "cli".to_string(),
                "cargo".to_string(),
                "manifest".to_string()
            ])),
            Action::Done
        )
    );
}

#[test]
fn a_manual_flag_takes_a_yes_or_a_no() {
    let options = menu(Field::Publish);
    let (state, action) = step(&options, "wizard", LoopState::AwaitingChoice, line("2"));
    assert_eq!(action, Action::Ask(Entry::Flag));
    let (state, action) = step(&options, "wizard", state, line("false"));
    assert_eq!(
        (state.clone(), action),
        (LoopState::AwaitingManualInput(Entry::Flag), Action::Ask(Entry::Flag))
    );
    assert_eq!(
        step(&options, "wizard", state, Event::Flag(false)),
        (LoopState::Committed(Setting::Flag(false)), Action::Done)
    );
}

#[test]
fn a_resolver_version_is_entered_as_its_number() {
    let options = menu(Field::Resolver);
    for (text, version) in [
        ("1", ResolverVersion::V1),
        ("2", ResolverVersion::V2),
        ("3", ResolverVersion::V3),
    ] {
        let (state, _) = step(&options, "wizard", LoopState::AwaitingChoice, line("4"));
        assert_eq!(
            step(&options, "wizard", state, line(text)),
            (LoopState::Committed(Setting::Resolver(version)), Action::Done)
        );
    }
    let (state, _) = step(&options, "wizard", LoopState::AwaitingChoice, line("4"));
    assert_eq!(
        step(&options, "wizard", state, line("4")),
        (
            LoopState::AwaitingChoice,
            Action::ShowMenu(Some(Notice::InvalidValue))
        )
    );
}

#[test]
fn a_derived_value_is_presented_before_it_is_committed() {
    let options = menu(Field::RustVersion);
    let (state, action) = step(&options, "wizard", LoopState::AwaitingChoice, line("2"));
    assert_eq!(
        (state.clone(), action),
        (
            LoopState::Deriving(Source::ToolchainProbe),
            Action::Run(Source::ToolchainProbe)
        )
    );
    let (state, action) = step(
        &options,
        "wizard",
        state,
        Event::Derived(Ok("1.61.0".to_string())),
    );
    assert_eq!(
        (state.clone(), action),
        (
            LoopState::AwaitingConfirmation(Setting::Text("1.61.0".to_string())),
            Action::Confirm
        )
    );
    assert_eq!(
        step(&options, "wizard", state, Event::Flag(true)),
        (
            LoopState::Committed(Setting::Text("1.61.0".to_string())),
            Action::Done
        )
    );
}

#[test]
fn a_declined_value_leads_back_to_the_menu() {
    let options = menu(Field::Authors);
    let (state, _) = step(&options, "wizard", LoopState::AwaitingChoice, line("1"));
    let (state, _) = step(
        &options,
        "wizard",
        state,
        Event::Derived(Ok("Jane <j@example.com>".to_string())),
    );
    assert_eq!(
        state,
        LoopState::AwaitingConfirmation(Setting::List(vec!["Jane <j@example.com>".to_string()]))
    );
    assert_eq!(
        step(&options, "wizard", state, Event::Flag(false)),
        (LoopState::AwaitingChoice, Action::ShowMenu(Some(Notice::Declined)))
    );
}

#[test]
fn a_failed_derivation_leads_back_to_the_menu() {
    let options = menu(Field::Repository);
    let (state, _) = step(&options, "wizard", LoopState::AwaitingChoice, line("2"));
    let failure = DeriveFailure::Lookup(LookupFailure::NoGitSuffix);
    assert_eq!(
        step(&options, "wizard", state, Event::Derived(Err(failure.clone()))),
        (
            LoopState::AwaitingChoice,
            Action::ShowMenu(Some(Notice::DerivationFailed(failure)))
        )
    );
}

#[test]
fn an_event_that_answers_nothing_asks_again() {
    let options = menu(Field::RustVersion);
    assert_eq!(
        step(&options, "wizard", LoopState::AwaitingChoice, Event::Flag(true)),
        (LoopState::AwaitingChoice, Action::ShowMenu(Some(Notice::Unexpected)))
    );
    assert_eq!(
        step(
            &options,
            "wizard",
            LoopState::Deriving(Source::ToolchainProbe),
            line("1")
        ),
        (
            LoopState::Deriving(Source::ToolchainProbe),
            Action::Run(Source::ToolchainProbe)
        )
    );
    let waiting = LoopState::AwaitingConfirmation(Setting::Text("1.61.0".to_string()));
    assert_eq!(
        step(&options, "wizard", waiting.clone(), line("yes")),
        (waiting, Action::Confirm)
    );
    assert_eq!(
        step(
            &options,
            "wizard",
            LoopState::AwaitingManualInput(Entry::Text),
            Event::Flag(true)
        ),
        (LoopState::AwaitingManualInput(Entry::Text), Action::Ask(Entry::Text))
    );
}

#[test]
fn an_ended_loop_stays_ended() {
    let options = menu(Field::RustVersion);
    let done = LoopState::Committed(Setting::Text("1.61.0".to_string()));
    assert_eq!(
        step(&options, "wizard", done.clone(), line("1")),
        (done, Action::Done)
    );
}
