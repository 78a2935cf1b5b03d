//! The field resolution loop: one menu, asked until a valid choice leads
//! to a value or to an explicit skip.
//!
//! The loop is a state machine. The caller shows what an [`Action`] asks
//! for, performs what it requests, and hands back what came of it as an
//! [`Event`]. Nothing that the user types ends the loop with an error: a
//! line that picks no option, a derivation that fails, a derived value
//! that the user declines and an entry that is no value all lead back to
//! the menu.

use vstd::prelude::*;
use crate::derive::DeriveFailure;
use crate::field::{Field, ResolverVersion, Setting, SettingView};
use crate::menu::{choice_of, choose_option, well_formed, Entry, Source, Strategy};
use crate::text::{chars_of, split, split_trimmed, trim_each, views};

verus! {

/// Where the loop stands.
#[derive(Clone, Debug, PartialEq, Eq)]
pub enum LoopState {
    /// The menu is shown; a line that picks an option is awaited.
    AwaitingChoice,
    /// A derivation is under way; its outcome is awaited.
    Deriving(Source),
    /// A derived value was presented; a yes or a no is awaited.
    AwaitingConfirmation(Setting),
    /// The user enters the value by hand.
    AwaitingManualInput(Entry),
    /// The user chose to skip the field. The loop has ended.
    Skipped,
    /// The field has its value. The loop has ended.
    Committed(Setting),
}

/// The mathematical content of a [`LoopState`].
pub enum LoopStateView {
    AwaitingChoice,
    Deriving(Source),
    AwaitingConfirmation(SettingView),
    AwaitingManualInput(Entry),
    Skipped,
    Committed(SettingView),
}

impl View for LoopState {
    type V = LoopStateView;

    open spec fn view(&self) -> LoopStateView {
        match self {
            LoopState::AwaitingChoice => LoopStateView::AwaitingChoice,
            LoopState::Deriving(source) => LoopStateView::Deriving(*source),
            LoopState::AwaitingConfirmation(value) => LoopStateView::AwaitingConfirmation(value@),
            LoopState::AwaitingManualInput(entry) => LoopStateView::AwaitingManualInput(*entry),
            LoopState::Skipped => LoopStateView::Skipped,
            LoopState::Committed(value) => LoopStateView::Committed(value@),
        }
    }
}

impl LoopStateView {
    /// The loop has ended.
    pub open spec fn is_terminal(self) -> bool {
        self is Skipped || self is Committed
    }

    /// Whatever the state holds or awaits is of a kind that `field` takes.
    pub open spec fn suits(self, field: Field) -> bool {
        match self {
            LoopStateView::AwaitingChoice => true,
            LoopStateView::Deriving(source) => field.takes(source.kind()),
            LoopStateView::AwaitingConfirmation(value) => field.takes(value.kind()),
            LoopStateView::AwaitingManualInput(entry) => field.takes(entry.kind()),
            LoopStateView::Skipped => true,
            LoopStateView::Committed(value) => field.takes(value.kind()),
        }
    }
}

/// What the caller hands to the loop.
#[derive(Debug, PartialEq, Eq)]
pub enum Event {
    /// A line that the user typed.
    Line(String),
    /// A yes or a no from the user.
    Flag(bool),
    /// What a derivation gave.
    Derived(Result<String, DeriveFailure>),
}

/// The mathematical content of an [`Event`].
pub enum EventView {
    Line(Seq<char>),
    Flag(bool),
    Derived(Result<Seq<char>, DeriveFailure>),
}

impl View for Event {
    type V = EventView;

    open spec fn view(&self) -> EventView {
        match self {
            Event::Line(line) => EventView::Line(line@),
            Event::Flag(flag) => EventView::Flag(*flag),
            Event::Derived(outcome) => EventView::Derived(
                match outcome {
                    Ok(text) => Ok(text@),
                    Err(failure) => Err(*failure),
                },
            ),
        }
    }
}

/// Why the menu is shown again.
#[derive(Clone, Debug, PartialEq, Eq)]
pub enum Notice {
    /// The line picked no option.
    InvalidChoice,
    /// What was entered is no value for the field.
    InvalidValue,
    /// The user declined the derived value.
    Declined,
    /// The derivation gave no value.
    DerivationFailed(DeriveFailure),
    /// The event answers nothing the menu asked.
    Unexpected,
}

/// What the caller does next.
#[derive(Clone, Debug, PartialEq, Eq)]
pub enum Action {
    /// Show the menu, after the notice if there is one, and read a line.
    ShowMenu(Option<Notice>),
    /// Run the derivation.
    Run(Source),
    /// Present the derived value and ask whether it is right.
    Confirm,
    /// Ask for the value in the given form.
    Ask(Entry),
    /// Nothing: the loop has ended.
    Done,
}

/// The value that a source's answer stands for: version control names one
/// author, the other sources give a text.
pub open spec fn derived_value(source: Source, text: Seq<char>) -> SettingView {
    match source {
        Source::GitIdentity => SettingView::List(seq![text]),
        Source::GitRemote => SettingView::Text(text),
        Source::ToolchainProbe => SettingView::Text(text),
    }
}

/// The resolver version that `line` names.
pub open spec fn resolver_named(line: Seq<char>) -> Option<ResolverVersion> {
    if line.len() == 1 && line[0] == '1' {
        Some(ResolverVersion::V1)
    } else if line.len() == 1 && line[0] == '2' {
        Some(ResolverVersion::V2)
    } else if line.len() == 1 && line[0] == '3' {
        Some(ResolverVersion::V3)
    } else {
        None
    }
}

/// What an event enters in the form `entry`. `None`: the event is not of
/// the form that was asked for. `Some(None)`: it is, and holds no value.
pub open spec fn entered(entry: Entry, event: EventView) -> Option<Option<SettingView>> {
    match (entry, event) {
        (Entry::Text, EventView::Line(line)) => Some(Some(SettingView::Text(line))),
        (Entry::List, EventView::Line(line)) => Some(
            Some(SettingView::List(trim_each(split(line, ',')))),
        ),
        (Entry::Flag, EventView::Flag(flag)) => Some(Some(SettingView::Flag(flag))),
        (Entry::Resolver, EventView::Line(line)) => match resolver_named(line) {
            Some(version) => Some(Some(SettingView::Resolver(version))),
            None => Some(None),
        },
        _ => None,
    }
}

/// The loop's transition: the state that follows `state` on `event`, and
/// what the caller is to do then. `options` is the field's menu and `name`
/// the name of the package.
pub open spec fn next(
    options: Seq<Strategy>,
    name: Seq<char>,
    state: LoopStateView,
    event: EventView,
) -> (LoopStateView, Action) {
    match state {
        LoopStateView::AwaitingChoice => match event {
            EventView::Line(line) => match choice_of(options, line) {
                Some(Strategy::Skip) => (LoopStateView::Skipped, Action::Done),
                Some(Strategy::Preset(preset)) => (
                    LoopStateView::Committed(preset.value(name)),
                    Action::Done,
                ),
                Some(Strategy::Derive(source)) => (
                    LoopStateView::Deriving(source),
                    Action::Run(source),
                ),
                Some(Strategy::Manual(entry)) => (
                    LoopStateView::AwaitingManualInput(entry),
                    Action::Ask(entry),
                ),
                None => (
                    LoopStateView::AwaitingChoice,
                    Action::ShowMenu(Some(Notice::InvalidChoice)),
                ),
            },
            _ => (LoopStateView::AwaitingChoice, Action::ShowMenu(Some(Notice::Unexpected))),
        },
        LoopStateView::Deriving(source) => match event {
            EventView::Derived(Ok(text)) => (
                LoopStateView::AwaitingConfirmation(derived_value(source, text)),
                Action::Confirm,
            ),
            EventView::Derived(Err(failure)) => (
                LoopStateView::AwaitingChoice,
                Action::ShowMenu(Some(Notice::DerivationFailed(failure))),
            ),
            _ => (LoopStateView::Deriving(source), Action::Run(source)),
        },
        LoopStateView::AwaitingConfirmation(value) => match event {
            EventView::Flag(true) => (LoopStateView::Committed(value), Action::Done),
            EventView::Flag(false) => (
                LoopStateView::AwaitingChoice,
                Action::ShowMenu(Some(Notice::Declined)),
            ),
            _ => (LoopStateView::AwaitingConfirmation(value), Action::Confirm),
        },
        LoopStateView::AwaitingManualInput(entry) => match entered(entry, event) {
            Some(Some(value)) => (LoopStateView::Committed(value), Action::Done),
            Some(None) => (
                LoopStateView::AwaitingChoice,
                Action::ShowMenu(Some(Notice::InvalidValue)),
            ),
            None => (LoopStateView::AwaitingManualInput(entry), Action::Ask(entry)),
        },
        LoopStateView::Skipped => (LoopStateView::Skipped, Action::Done),
        LoopStateView::Committed(value) => (LoopStateView::Committed(value), Action::Done),
    }
}

/// A line that picks no option changes nothing: the loop still awaits a
/// choice, and the menu is shown again.
pub proof fn lemma_invalid_choice_shows_menu_again(
    options: Seq<Strategy>,
    name: Seq<char>,
    line: Seq<char>,
)
    requires
        choice_of(options, line) is None,
    ensures
        next(options, name, LoopStateView::AwaitingChoice, EventView::Line(line)) == (
            LoopStateView::AwaitingChoice,
            Action::ShowMenu(Some(Notice::InvalidChoice)),
        ),
{
}

/// In a menu of fewer than nine options the line `9` picks none.
pub proof fn lemma_nine_is_no_option(options: Seq<Strategy>)
    requires
        options.len() < 9,
    ensures
        choice_of(options, seq!['9']) is None,
{
}

/// Picking the option that skips ends the loop in `Skipped`, and an ended
/// loop stays as it is whatever it is handed.
pub proof fn lemma_skip_ends_the_loop(
    options: Seq<Strategy>,
    name: Seq<char>,
    line: Seq<char>,
    later: EventView,
)
    requires
        choice_of(options, line) == Some(Strategy::Skip),
    ensures
        next(options, name, LoopStateView::AwaitingChoice, EventView::Line(line)).0
            == LoopStateView::Skipped,
        next(options, name, LoopStateView::Skipped, later) == (
            LoopStateView::Skipped,
            Action::Done,
        ),
{
}

/// A failed derivation never ends the loop: it leads back to the menu.
pub proof fn lemma_failed_derivation_returns_to_menu(
    options: Seq<Strategy>,
    name: Seq<char>,
    source: Source,
    failure: DeriveFailure,
)
    ensures
        next(
            options,
            name,
            LoopStateView::Deriving(source),
            EventView::Derived(Err(failure)),
        ).0 == LoopStateView::AwaitingChoice,
{
}

/// A derived value is never committed without the user's consent: from a
/// derivation the loop reaches `Committed` only through
/// `AwaitingConfirmation` and a yes.
pub proof fn lemma_no_silent_fill(
    options: Seq<Strategy>,
    name: Seq<char>,
    source: Source,
    event: EventView,
)
    ensures
        !(next(options, name, LoopStateView::Deriving(source), event).0 is Committed),
        forall|value: SettingView|
            (#[trigger] next(
                options,
                name,
                LoopStateView::AwaitingConfirmation(value),
                event,
            )).0 is Committed ==> event == EventView::Flag(true),
{
}

/// With a well-formed menu the loop never holds a value of a kind that
/// the field does not take.
pub proof fn lemma_next_suits(
    options: Seq<Strategy>,
    field: Field,
    name: Seq<char>,
    state: LoopStateView,
    event: EventView,
)
    requires
        well_formed(options, field),
        state.suits(field),
    ensures
        next(options, name, state, event).0.suits(field),
{
    match state {
        LoopStateView::AwaitingChoice => match event {
            EventView::Line(line) => match choice_of(options, line) {
                Some(strategy) => {
                    let n = crate::menu::option_number(line)->0;
                    assert(options[n - 1].suits(field));
                },
                None => {},
            },
            _ => {},
        },
        _ => {},
    }
}

/// The resolver version that `line` names.
fn parse_resolver(line: &str) -> (version: Option<ResolverVersion>)
    ensures
        version == resolver_named(line@),
{
    let text = chars_of(line);
    if text.len() != 1 {
        return None;
    }
    let c = text[0];
    if c == '1' {
        Some(ResolverVersion::V1)
    } else if c == '2' {
        Some(ResolverVersion::V2)
    } else if c == '3' {
        Some(ResolverVersion::V3)
    } else {
        None
    }
}

/// The value that a source's answer stands for.
fn value_derived(source: Source, text: String) -> (value: Setting)
    ensures
        value@ == derived_value(source, text@),
{
    match source {
        Source::GitIdentity => {
            let mut authors: Vec<String> = Vec::new();
            authors.push(text);
            assert(views(authors@) =~= seq![text@]);
            Setting::List(authors)
        },
        Source::GitRemote => Setting::Text(text),
        Source::ToolchainProbe => Setting::Text(text),
    }
}

/// One step of the loop: takes the state and what happened, and gives the
/// state that follows with what the caller is to do next.
pub fn step(options: &Vec<Strategy>, name: &str, state: LoopState, event: Event) -> (r: (
    LoopState,
    Action,
))
    ensures
        (r.0@, r.1) == next(options@, name@, state@, event@),
{
    match state {
        LoopState::AwaitingChoice => match event {
            Event::Line(line) => match choose_option(options, line.as_str()) {
                Some(Strategy::Skip) => (LoopState::Skipped, Action::Done),
                Some(Strategy::Preset(preset)) => (
                    LoopState::Committed(preset.propose(name)),
                    Action::Done,
                ),
                Some(Strategy::Derive(source)) => (LoopState::Deriving(source), Action::Run(source)),
                Some(Strategy::Manual(entry)) => (
                    LoopState::AwaitingManualInput(entry),
                    Action::Ask(entry),
                ),
                None => (LoopState::AwaitingChoice, Action::ShowMenu(Some(Notice::InvalidChoice))),
            },
            _ => (LoopState::AwaitingChoice, Action::ShowMenu(Some(Notice::Unexpected))),
        },
        LoopState::Deriving(source) => match event {
            Event::Derived(Ok(text)) => (
                LoopState::AwaitingConfirmation(value_derived(source, text)),
                Action::Confirm,
            ),
            Event::Derived(Err(failure)) => (
                LoopState::AwaitingChoice,
                Action::ShowMenu(Some(Notice::DerivationFailed(failure))),
            ),
            _ => (LoopState::Deriving(source), Action::Run(source)),
        },
        LoopState::AwaitingConfirmation(value) => match event {
            Event::Flag(true) => (LoopState::Committed(value), Action::Done),
            Event::Flag(false) => (
                LoopState::AwaitingChoice,
                Action::ShowMenu(Some(Notice::Declined)),
            ),
            _ => (LoopState::AwaitingConfirmation(value), Action::Confirm),
        },
        LoopState::AwaitingManualInput(entry) => match (entry, event) {
            (Entry::Text, Event::Line(line)) => (
                LoopState::Committed(Setting::Text(line)),
                Action::Done,
            ),
            (Entry::List, Event::Line(line)) => (
                LoopState::Committed(Setting::List(split_trimmed(line.as_str(), ','))),
                Action::Done,
            ),
            (Entry::Flag, Event::Flag(flag)) => (
                LoopState::Committed(Setting::Flag(flag)),
                Action::Done,
            ),
            (Entry::Resolver, Event::Line(line)) => match parse_resolver(line.as_str()) {
                Some(version) => (LoopState::Committed(Setting::Resolver(version)), Action::Done),
                None => (LoopState::AwaitingChoice, Action::ShowMenu(Some(Notice::InvalidValue))),
            },
            _ => (LoopState::AwaitingManualInput(entry), Action::Ask(entry)),
        },
        LoopState::Skipped => (LoopState::Skipped, Action::Done),
        LoopState::Committed(value) => (LoopState::Committed(value), Action::Done),
    }
}

} // verus!
