//! The wizard: the fields asked one at a time, in a fixed order, each
//! through its resolution loop and each exactly once.
//!
//! Like the loop, the wizard is a state machine: the caller performs what a
//! [`Prompt`] asks for and hands back the outcome as an event. After the
//! main fields comes an interlude: the wizard asks once whether the
//! miscellaneous fields are wanted at all.

use vstd::prelude::*;
use crate::field::{Field, ManifestFieldValue, Setting, SettingView, FIELD_COUNT, MAIN_FIELD_COUNT};
use crate::menu::{choice_of, menu, menu_of, option_number, Strategy};
use crate::resolution::{
    lemma_next_suits, next, step, Action, Event, EventView, LoopState, LoopStateView, Notice,
};
use crate::text::chars_of;

verus! {

/// What the wizard is doing.
#[derive(Clone, Debug, PartialEq, Eq)]
pub enum Stage {
    /// The loop of this field is running.
    Asking(Field, LoopState),
    /// The main fields are done; the user is asked whether to go on to the
    /// miscellaneous ones.
    Interlude,
    /// No field is left to ask.
    Finished,
}

/// The mathematical content of a [`Stage`].
pub enum StageView {
    Asking(Field, LoopStateView),
    Interlude,
    Finished,
}

impl View for Stage {
    type V = StageView;

    open spec fn view(&self) -> StageView {
        match self {
            Stage::Asking(field, state) => StageView::Asking(*field, state@),
            Stage::Interlude => StageView::Interlude,
            Stage::Finished => StageView::Finished,
        }
    }
}

/// What the caller does next.
#[derive(Clone, Debug, PartialEq, Eq)]
pub enum Prompt {
    /// Carry out the action for the loop of this field.
    Field(Field, Action),
    /// Ask whether the miscellaneous fields are wanted: `1` skips them, `2`
    /// enters them. The notice says why the question is asked again.
    Interlude(Option<Notice>),
    /// Nothing: every field has been dealt with.
    Finished,
}

/// The content of one answer.
pub open spec fn answer_view(answer: ManifestFieldValue<Setting>) -> ManifestFieldValue<SettingView> {
    match answer {
        ManifestFieldValue::Absent => ManifestFieldValue::Absent,
        ManifestFieldValue::Skipped => ManifestFieldValue::Skipped,
        ManifestFieldValue::Inherited => ManifestFieldValue::Inherited,
        ManifestFieldValue::Assigned(value) => ManifestFieldValue::Assigned(value@),
    }
}

/// The content of the answers, by place of the field.
pub open spec fn answers_view(answers: Seq<ManifestFieldValue<Setting>>) -> Seq<
    ManifestFieldValue<SettingView>,
> {
    Seq::new(answers.len(), |i: int| answer_view(answers[i]))
}

/// The wizard's state: the name of the package, what is known of each
/// field, and the stage.
#[derive(Debug, PartialEq, Eq)]
pub struct Wizard {
    name: String,
    answers: Vec<ManifestFieldValue<Setting>>,
    stage: Stage,
}

/// The mathematical content of a [`Wizard`].
pub struct WizardView {
    pub name: Seq<char>,
    pub answers: Seq<ManifestFieldValue<SettingView>>,
    pub stage: StageView,
}

impl View for Wizard {
    type V = WizardView;

    closed spec fn view(&self) -> WizardView {
        WizardView {
            name: self.name@,
            answers: answers_view(self.answers@),
            stage: self.stage@,
        }
    }
}

/// What the answer to the question about the miscellaneous fields picks.
#[derive(Clone, Copy, Debug, PartialEq, Eq, Structural)]
pub enum InterludeChoice {
    Skip,
    Enter,
}

/// What `line` answers to the question about the miscellaneous fields.
pub open spec fn interlude_choice(line: Seq<char>) -> Option<InterludeChoice> {
    match option_number(line) {
        Some(n) => if n == 1 {
            Some(InterludeChoice::Skip)
        } else if n == 2 {
            Some(InterludeChoice::Enter)
        } else {
            None
        },
        None => None,
    }
}

/// The stage that follows the field at place `i`, with what it asks.
pub open spec fn stage_after(i: int) -> (StageView, Prompt) {
    if i + 1 == MAIN_FIELD_COUNT {
        (StageView::Interlude, Prompt::Interlude(None))
    } else {
        match Field::at_index(i + 1) {
            Some(field) => (
                StageView::Asking(field, LoopStateView::AwaitingChoice),
                Prompt::Field(field, Action::ShowMenu(None)),
            ),
            None => (StageView::Finished, Prompt::Finished),
        }
    }
}

impl WizardView {
    /// The places before `asked` have been dealt with, those from `asked`
    /// on have never been asked.
    pub open spec fn asked_up_to(self, asked: int) -> bool {
        forall|i: int|
            0 <= i < self.answers.len() ==> ((#[trigger] self.answers[i]) is Absent <==> asked
                <= i)
    }

    /// The state is one that the wizard can be in.
    ///
    /// - There is one answer for each field, and a field that has a value
    ///   has one of a kind that it takes.
    /// - While a field is asked, its loop has not ended, every field before
    ///   it has been dealt with and no field from it on has been.
    /// - At the interlude exactly the main fields have been dealt with.
    /// - At the end the main fields have been dealt with, and of the
    ///   miscellaneous ones either all or none.
    pub open spec fn wf(self) -> bool {
        &&& self.answers.len() == FIELD_COUNT
        &&& forall|i: int|
            0 <= i < self.answers.len() ==> ((#[trigger] self.answers[i]) matches ManifestFieldValue::Assigned(
                value,
            ) ==> Field::at_index(i) matches Some(field) && field.takes(value.kind()))
        &&& match self.stage {
            StageView::Asking(field, state) => {
                &&& !state.is_terminal()
                &&& state.suits(field)
                &&& self.asked_up_to(field.index())
            },
            StageView::Interlude => self.asked_up_to(MAIN_FIELD_COUNT as int),
            StageView::Finished => self.asked_up_to(MAIN_FIELD_COUNT as int) || self.asked_up_to(
                FIELD_COUNT as int,
            ),
        }
    }

    /// The wizard's transition: the state that follows on `event`, and
    /// what the caller is to do then.
    ///
    /// While a field is asked the event goes to its loop. When the loop
    /// ends, the field gets `Skipped` or its value, and the next stage
    /// begins. At the interlude a `1` ends the wizard, a `2` goes on to the
    /// first miscellaneous field, and anything else asks again.
    pub open spec fn advance(self, event: EventView) -> (WizardView, Prompt) {
        match self.stage {
            StageView::Asking(field, state) => {
                let (state, action) = next(menu_of(field), self.name, state, event);
                match state {
                    LoopStateView::Skipped => (
                        WizardView {
                            answers: self.answers.update(
                                field.index(),
                                ManifestFieldValue::Skipped,
                            ),
                            stage: stage_after(field.index()).0,
                            ..self
                        },
                        stage_after(field.index()).1,
                    ),
                    LoopStateView::Committed(value) => (
                        WizardView {
                            answers: self.answers.update(
                                field.index(),
                                ManifestFieldValue::Assigned(value),
                            ),
                            stage: stage_after(field.index()).0,
                            ..self
                        },
                        stage_after(field.index()).1,
                    ),
                    _ => (
                        WizardView { stage: StageView::Asking(field, state), ..self },
                        Prompt::Field(field, action),
                    ),
                }
            },
            StageView::Interlude => match event {
                EventView::Line(line) => match interlude_choice(line) {
                    Some(InterludeChoice::Skip) => (
                        WizardView { stage: StageView::Finished, ..self },
                        Prompt::Finished,
                    ),
                    Some(InterludeChoice::Enter) => (
                        WizardView {
                            stage: StageView::Asking(
                                Field::Workspace,
                                LoopStateView::AwaitingChoice,
                            ),
                            ..self
                        },
                        Prompt::Field(Field::Workspace, Action::ShowMenu(None)),
                    ),
                    None => (self, Prompt::Interlude(Some(Notice::InvalidChoice))),
                },
                _ => (self, Prompt::Interlude(Some(Notice::Unexpected))),
            },
            StageView::Finished => (self, Prompt::Finished),
        }
    }
}

/// Every step leaves the wizard in a state that it can be in.
pub proof fn lemma_advance_keeps_wf(wizard: WizardView, event: EventView)
    requires
        wizard.wf(),
    ensures
        wizard.advance(event).0.wf(),
{
    let after = wizard.advance(event).0;
    match wizard.stage {
        StageView::Asking(field, state) => {
            crate::menu::lemma_every_menu_offers_skip_and_manual(field);
            lemma_next_suits(menu_of(field), field, wizard.name, state, event);
            let (state2, action) = next(menu_of(field), wizard.name, state, event);
            let here = field.index();
            if state2.is_terminal() {
                assert(Field::at_index(here) == Some(field));
                assert(after.asked_up_to(here + 1)) by {
                    assert forall|i: int| 0 <= i < after.answers.len() implies ((
                    #[trigger] after.answers[i]) is Absent <==> here + 1 <= i) by {
                        if i != here {
                            assert(after.answers[i] == wizard.answers[i]);
                        }
                    }
                }
                assert forall|i: int| 0 <= i < after.answers.len() implies ((
                #[trigger] after.answers[i]) matches ManifestFieldValue::Assigned(value)
                    ==> Field::at_index(i) matches Some(f) && f.takes(value.kind())) by {
                    if i != here {
                        assert(after.answers[i] == wizard.answers[i]);
                    }
                }
                if here + 1 != MAIN_FIELD_COUNT && here + 1 < FIELD_COUNT {
                    assert(Field::at_index(here + 1)->0.index() == here + 1);
                }
            }
        },
        StageView::Interlude => {},
        StageView::Finished => {},
    }
}

/// A line that picks no option of the menu changes nothing: the field's
/// value and every other answer stay as they are, the loop still awaits a
/// choice, and the menu is shown again.
pub proof fn lemma_invalid_choice_changes_nothing(wizard: WizardView, field: Field, line: Seq<char>)
    requires
        wizard.stage == StageView::Asking(field, LoopStateView::AwaitingChoice),
        choice_of(menu_of(field), line) is None,
    ensures
        wizard.advance(EventView::Line(line)) == (
            wizard,
            Prompt::Field(field, Action::ShowMenu(Some(Notice::InvalidChoice))),
        ),
{
}

/// No menu has an option `9`, so that line never touches a field.
pub proof fn lemma_nine_changes_nothing(wizard: WizardView, field: Field)
    requires
        wizard.stage == StageView::Asking(field, LoopStateView::AwaitingChoice),
    ensures
        wizard.advance(EventView::Line(seq!['9'])).0 == wizard,
{
    assert(menu_of(field).len() < 9);
    assert(seq!['9'][0] == '9');
    assert(choice_of(menu_of(field), seq!['9']) is None);
}

/// Choosing to skip records `Skipped` for the field and moves on.
pub proof fn lemma_skip_records_skipped(wizard: WizardView, field: Field, line: Seq<char>)
    requires
        wizard.wf(),
        wizard.stage == StageView::Asking(field, LoopStateView::AwaitingChoice),
        choice_of(menu_of(field), line) == Some(Strategy::Skip),
    ensures
        wizard.advance(EventView::Line(line)).0.answers[field.index()]
            == ManifestFieldValue::<SettingView>::Skipped,
        !(wizard.advance(EventView::Line(line)).0.stage matches StageView::Asking(f, _) && f
            == field),
{
    let here = field.index();
    if here + 1 != MAIN_FIELD_COUNT && here + 1 < FIELD_COUNT {
        assert(Field::at_index(here + 1)->0.index() == here + 1);
    }
}

/// Each field is dealt with exactly once: a field that has been dealt with
/// is not the one being asked, and no step changes what is known of it.
pub proof fn lemma_answered_once(wizard: WizardView, event: EventView, i: int)
    requires
        wizard.wf(),
        0 <= i < FIELD_COUNT,
        !(wizard.answers[i] is Absent),
    ensures
        !(wizard.stage matches StageView::Asking(field, _) && field.index() == i),
        wizard.advance(event).0.answers[i] == wizard.answers[i],
        !(wizard.advance(event).0.stage matches StageView::Asking(field, _) && field.index()
            == i),
{
    lemma_advance_keeps_wf(wizard, event);
    let after = wizard.advance(event).0;
    match wizard.stage {
        StageView::Asking(field, state) => {
            assert(field.index() != i);
        },
        _ => {},
    }
    match after.stage {
        StageView::Asking(field, state) => {
            if field.index() == i {
                assert(after.answers[i] is Absent);
            }
        },
        _ => {},
    }
}

/// What `line` answers to the question about the miscellaneous fields.
fn read_interlude(line: &str) -> (choice: Option<InterludeChoice>)
    ensures
        choice == interlude_choice(line@),
{
    let text = chars_of(line);
    if text.len() != 1 {
        return None;
    }
    let c = text[0];
    if c == '1' {
        Some(InterludeChoice::Skip)
    } else if c == '2' {
        Some(InterludeChoice::Enter)
    } else {
        None
    }
}

/// The stage that follows the field at place `i`, with what it asks.
fn stage_following(i: usize) -> (r: (Stage, Prompt))
    requires
        i < FIELD_COUNT,
    ensures
        (r.0@, r.1) == stage_after(i as int),
{
    if i + 1 == MAIN_FIELD_COUNT {
        (Stage::Interlude, Prompt::Interlude(None))
    } else {
        match Field::at(i + 1) {
            Some(field) => (
                Stage::Asking(field, LoopState::AwaitingChoice),
                Prompt::Field(field, Action::ShowMenu(None)),
            ),
            None => (Stage::Finished, Prompt::Finished),
        }
    }
}

impl Wizard {
    #[verifier::type_invariant]
    spec fn inv(&self) -> bool {
        self@.wf()
    }

    /// The name of the package.
    pub fn name(&self) -> (name: &String)
        ensures
            name@ == self@.name,
    {
        &self.name
    }

    /// What is known of each field, by place of the field.
    pub fn answers(&self) -> (answers: &Vec<ManifestFieldValue<Setting>>)
        ensures
            answers_view(answers@) == self@.answers,
            answers@.len() == FIELD_COUNT,
    {
        proof {
            use_type_invariant(self);
        }
        &self.answers
    }

    /// What the wizard is doing.
    pub fn stage(&self) -> (stage: &Stage)
        ensures
            stage@ == self@.stage,
    {
        &self.stage
    }

    /// Ends the wizard and hands over what is known of each field.
    pub fn into_answers(self) -> (answers: Vec<ManifestFieldValue<Setting>>)
        ensures
            answers_view(answers@) == self@.answers,
            answers@.len() == FIELD_COUNT,
    {
        proof {
            use_type_invariant(&self);
        }
        self.answers
    }

    /// A wizard for the package called `name`, with what it asks first: the
    /// menu of the first field. No field has been asked yet.
    pub fn start(name: String) -> (r: (Wizard, Prompt))
        ensures
            r.0@.wf(),
            r.0@.name == name@,
            r.0@.stage == StageView::Asking(Field::Authors, LoopStateView::AwaitingChoice),
            r.0@.asked_up_to(0),
            r.1 == Prompt::Field(Field::Authors, Action::ShowMenu(None)),
    {
        let mut answers: Vec<ManifestFieldValue<Setting>> = Vec::new();
        let mut i: usize = 0;
        while i < FIELD_COUNT
            invariant
                i <= FIELD_COUNT,
                answers@.len() == i,
                forall|j: int| 0 <= j < i ==> answers@[j] is Absent,
            decreases FIELD_COUNT - i,
        {
            answers.push(ManifestFieldValue::Absent);
            i += 1;
        }
        let wizard = Wizard {
            name,
            answers,
            stage: Stage::Asking(Field::Authors, LoopState::AwaitingChoice),
        };
        (wizard, Prompt::Field(Field::Authors, Action::ShowMenu(None)))
    }

    /// One step of the wizard: takes what happened and gives the state
    /// that follows with what the caller is to do next.
    pub fn advance(self, event: Event) -> (r: (Wizard, Prompt))
        ensures
            self@.wf(),
            (r.0@, r.1) == self@.advance(event@),
            r.0@.wf(),
    {
        proof {
            use_type_invariant(&self);
            lemma_advance_keeps_wf(self@, event@);
        }
        let Wizard { name, mut answers, stage } = self;
        match stage {
            Stage::Asking(field, state) => {
                let options = menu(field);
                let (state, action) = step(&options, name.as_str(), state, event);
                let here = field.ordinal();
                match state {
                    LoopState::Skipped => {
                        let ghost before = answers@;
                        answers[here] = ManifestFieldValue::Skipped;
                        let (stage, prompt) = stage_following(here);
                        assert(answers_view(answers@) =~= answers_view(before).update(
                            here as int,
                            ManifestFieldValue::Skipped,
                        ));
                        (Wizard { name, answers, stage }, prompt)
                    },
                    LoopState::Committed(value) => {
                        let ghost before = answers@;
                        answers[here] = ManifestFieldValue::Assigned(value);
                        let (stage, prompt) = stage_following(here);
                        assert(answers_view(answers@) =~= answers_view(before).update(
                            here as int,
                            ManifestFieldValue::Assigned(value@),
                        ));
                        (Wizard { name, answers, stage }, prompt)
                    },
                    state => (
                        Wizard { name, answers, stage: Stage::Asking(field, state) },
                        Prompt::Field(field, action),
                    ),
                }
            },
            Stage::Interlude => match event {
                Event::Line(line) => match read_interlude(line.as_str()) {
                    Some(InterludeChoice::Skip) => (
                        Wizard { name, answers, stage: Stage::Finished },
                        Prompt::Finished,
                    ),
                    Some(InterludeChoice::Enter) => (
                        Wizard {
                            name,
                            answers,
                            stage: Stage::Asking(Field::Workspace, LoopState::AwaitingChoice),
                        },
                        Prompt::Field(Field::Workspace, Action::ShowMenu(None)),
                    ),
                    None => (
                        Wizard { name, answers, stage: Stage::Interlude },
                        Prompt::Interlude(Some(Notice::InvalidChoice)),
                    ),
                },
                _ => (
                    Wizard { name, answers, stage: Stage::Interlude },
                    Prompt::Interlude(Some(Notice::Unexpected)),
                ),
            },
            Stage::Finished => (Wizard { name, answers, stage: Stage::Finished }, Prompt::Finished),
        }
    }
}

} // verus!
