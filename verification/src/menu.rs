//! The menu of each field: the strategies it offers for finding a value,
//! in the order in which they are numbered.

use vstd::prelude::*;
use vstd::string::StringExecFns;
use crate::field::{Field, Kind, ResolverVersion, Setting, SettingView};
use crate::text::chars_of;

verus! {

/// Where a value can be derived from outside the wizard.
#[derive(Clone, Copy, Debug, PartialEq, Eq, Structural)]
pub enum Source {
    /// The user's name and address as version control is configured.
    GitIdentity,
    /// The address of the origin remote.
    GitRemote,
    /// A run of the helper that finds the oldest toolchain that builds the
    /// package.
    ToolchainProbe,
}

/// A value that the wizard proposes itself.
#[derive(Clone, Copy, Debug, PartialEq, Eq, Structural)]
pub enum Preset {
    /// The page of the package on docs.rs.
    DocsRs,
    /// `README.md`.
    ReadmeFile,
    /// `LICENSE`.
    LicenseFile,
    /// `false`: automatic discovery switched off.
    Disabled,
    /// Resolver version 1.
    ResolverV1,
    /// Resolver version 2.
    ResolverV2,
}

/// The form in which a value is entered by hand.
#[derive(Clone, Copy, Debug, PartialEq, Eq, Structural)]
pub enum Entry {
    /// One line of text, taken as it is.
    Text,
    /// One line holding a comma-separated list.
    List,
    /// A yes or a no.
    Flag,
    /// One line holding a resolver version: `1`, `2` or `3`.
    Resolver,
}

/// One way of finding a field's value.
#[derive(Clone, Copy, Debug, PartialEq, Eq, Structural)]
pub enum Strategy {
    /// Leave the field as it is.
    Skip,
    /// Take the value that the wizard proposes.
    Preset(Preset),
    /// Derive the value from outside, and ask for confirmation.
    Derive(Source),
    /// Enter the value by hand.
    Manual(Entry),
}

impl Source {
    /// The kind of value that the source gives.
    pub open spec fn kind(self) -> Kind {
        match self {
            Source::GitIdentity => Kind::List,
            Source::GitRemote => Kind::Text,
            Source::ToolchainProbe => Kind::Text,
        }
    }
}

impl Preset {
    /// The kind of the proposed value.
    pub open spec fn kind(self) -> Kind {
        match self {
            Preset::DocsRs => Kind::Text,
            Preset::ReadmeFile => Kind::Text,
            Preset::LicenseFile => Kind::Text,
            Preset::Disabled => Kind::Flag,
            Preset::ResolverV1 => Kind::Resolver,
            Preset::ResolverV2 => Kind::Resolver,
        }
    }

    /// The proposed value, for a package called `name`.
    pub open spec fn value(self, name: Seq<char>) -> SettingView {
        match self {
            Preset::DocsRs => SettingView::Text("https://docs.rs/"@ + name),
            Preset::ReadmeFile => SettingView::Text("README.md"@),
            Preset::LicenseFile => SettingView::Text("LICENSE"@),
            Preset::Disabled => SettingView::Flag(false),
            Preset::ResolverV1 => SettingView::Resolver(ResolverVersion::V1),
            Preset::ResolverV2 => SettingView::Resolver(ResolverVersion::V2),
        }
    }

    /// The proposed value, for a package called `name`.
    pub fn propose(self, name: &str) -> (value: Setting)
        ensures
            value@ == self.value(name@),
            value@.kind() == self.kind(),
    {
        match self {
            Preset::DocsRs => {
                let mut address = "https://docs.rs/".to_owned();
                address.append(name);
                Setting::Text(address)
            },
            Preset::ReadmeFile => Setting::Text("README.md".to_owned()),
            Preset::LicenseFile => Setting::Text("LICENSE".to_owned()),
            Preset::Disabled => Setting::Flag(false),
            Preset::ResolverV1 => Setting::Resolver(ResolverVersion::V1),
            Preset::ResolverV2 => Setting::Resolver(ResolverVersion::V2),
        }
    }
}

impl Entry {
    /// The kind of value that is entered.
    pub open spec fn kind(self) -> Kind {
        match self {
            Entry::Text => Kind::Text,
            Entry::List => Kind::List,
            Entry::Flag => Kind::Flag,
            Entry::Resolver => Kind::Resolver,
        }
    }
}

impl Strategy {
    /// The strategy gives `field` nothing that it cannot take.
    pub open spec fn suits(self, field: Field) -> bool {
        match self {
            Strategy::Skip => true,
            Strategy::Preset(preset) => field.takes(preset.kind()),
            Strategy::Derive(source) => field.takes(source.kind()),
            Strategy::Manual(entry) => field.takes(entry.kind()),
        }
    }
}

/// The menu of `field`.
pub open spec fn menu_of(field: Field) -> Seq<Strategy> {
    match field {
        Field::Authors => seq![
            Strategy::Derive(Source::GitIdentity),
            Strategy::Manual(Entry::List),
            Strategy::Skip,
        ],
        Field::RustVersion => seq![
            Strategy::Skip,
            Strategy::Derive(Source::ToolchainProbe),
            Strategy::Manual(Entry::Text),
        ],
        Field::Description => seq![Strategy::Manual(Entry::Text), Strategy::Skip],
        Field::Documentation => seq![
            Strategy::Preset(Preset::DocsRs),
            Strategy::Manual(Entry::Text),
            Strategy::Skip,
        ],
        Field::Readme => seq![
            Strategy::Preset(Preset::ReadmeFile),
            Strategy::Manual(Entry::Text),
            Strategy::Skip,
        ],
        Field::Repository => seq![
            Strategy::Skip,
            Strategy::Derive(Source::GitRemote),
            Strategy::Manual(Entry::Text),
        ],
        Field::LicenseFile => seq![
            Strategy::Preset(Preset::LicenseFile),
            Strategy::Manual(Entry::Text),
            Strategy::Skip,
        ],
        Field::Keywords | Field::Categories | Field::Exclude | Field::Include => seq![
            Strategy::Skip,
            Strategy::Manual(Entry::List),
        ],
        Field::Publish => seq![
            Strategy::Skip,
            Strategy::Manual(Entry::Flag),
            Strategy::Manual(Entry::List),
        ],
        Field::Autobins | Field::Autoexamples | Field::Autotests | Field::Autobenches => seq![
            Strategy::Skip,
            Strategy::Preset(Preset::Disabled),
            Strategy::Manual(Entry::Flag),
        ],
        Field::Resolver => seq![
            Strategy::Skip,
            Strategy::Preset(Preset::ResolverV1),
            Strategy::Preset(Preset::ResolverV2),
            Strategy::Manual(Entry::Resolver),
        ],
        Field::Homepage
        | Field::License
        | Field::Workspace
        | Field::Build
        | Field::Links
        | Field::DefaultRun => seq![Strategy::Skip, Strategy::Manual(Entry::Text)],
    }
}

/// A menu that the loop can run for `field`: it has between one and nine
/// options, so that each has a one-digit number, and each suits the field.
pub open spec fn well_formed(options: Seq<Strategy>, field: Field) -> bool {
    &&& 1 <= options.len() <= 9
    &&& forall|i: int| 0 <= i < options.len() ==> (#[trigger] options[i]).suits(field)
}

/// `options` has a strategy that enters the value by hand.
pub open spec fn offers_manual(options: Seq<Strategy>) -> bool {
    exists|i: int| 0 <= i < options.len() && #[trigger] options[i] is Manual
}

/// Every field's menu is well formed, lets the user skip the field, and
/// lets the user enter the value by hand.
pub proof fn lemma_every_menu_offers_skip_and_manual(field: Field)
    ensures
        well_formed(menu_of(field), field),
        menu_of(field).contains(Strategy::Skip),
        offers_manual(menu_of(field)),
{
    let m = menu_of(field);
    match field {
        Field::Authors => {
            assert(m[2] == Strategy::Skip);
            assert(m[1] is Manual);
        },
        Field::Description => {
            assert(m[1] == Strategy::Skip);
            assert(m[0] is Manual);
        },
        Field::Documentation | Field::Readme | Field::LicenseFile => {
            assert(m[2] == Strategy::Skip);
            assert(m[1] is Manual);
        },
        Field::RustVersion | Field::Repository | Field::Publish => {
            assert(m[0] == Strategy::Skip);
            assert(m[2] is Manual);
        },
        Field::Autobins | Field::Autoexamples | Field::Autotests | Field::Autobenches => {
            assert(m[0] == Strategy::Skip);
            assert(m[2] is Manual);
        },
        Field::Resolver => {
            assert(m[0] == Strategy::Skip);
            assert(m[3] is Manual);
        },
        _ => {
            assert(m[0] == Strategy::Skip);
            assert(m[1] is Manual);
        },
    }
}

/// The menu of `field`.
pub fn menu(field: Field) -> (options: Vec<Strategy>)
    ensures
        options@ == menu_of(field),
        well_formed(options@, field),
{
    proof {
        lemma_every_menu_offers_skip_and_manual(field);
    }
    let options = match field {
        Field::Authors => vec![
            Strategy::Derive(Source::GitIdentity),
            Strategy::Manual(Entry::List),
            Strategy::Skip,
        ],
        Field::RustVersion => vec![
            Strategy::Skip,
            Strategy::Derive(Source::ToolchainProbe),
            Strategy::Manual(Entry::Text),
        ],
        Field::Description => vec![Strategy::Manual(Entry::Text), Strategy::Skip],
        Field::Documentation => vec![
            Strategy::Preset(Preset::DocsRs),
            Strategy::Manual(Entry::Text),
            Strategy::Skip,
        ],
        Field::Readme => vec![
            Strategy::Preset(Preset::ReadmeFile),
            Strategy::Manual(Entry::Text),
            Strategy::Skip,
        ],
        Field::Repository => vec![
            Strategy::Skip,
            Strategy::Derive(Source::GitRemote),
            Strategy::Manual(Entry::Text),
        ],
        Field::LicenseFile => vec![
            Strategy::Preset(Preset::LicenseFile),
            Strategy::Manual(Entry::Text),
            Strategy::Skip,
        ],
        Field::Keywords | Field::Categories | Field::Exclude | Field::Include => vec![
            Strategy::Skip,
            Strategy::Manual(Entry::List),
        ],
        Field::Publish => vec![
            Strategy::Skip,
            Strategy::Manual(Entry::Flag),
            Strategy::Manual(Entry::List),
        ],
        Field::Autobins | Field::Autoexamples | Field::Autotests | Field::Autobenches => vec![
            Strategy::Skip,
            Strategy::Preset(Preset::Disabled),
            Strategy::Manual(Entry::Flag),
        ],
        Field::Resolver => vec![
            Strategy::Skip,
            Strategy::Preset(Preset::ResolverV1),
            Strategy::Preset(Preset::ResolverV2),
            Strategy::Manual(Entry::Resolver),
        ],
        Field::Homepage
        | Field::License
        | Field::Workspace
        | Field::Build
        | Field::Links
        | Field::DefaultRun => vec![Strategy::Skip, Strategy::Manual(Entry::Text)],
    };
    assert(options@ =~= menu_of(field));
    options
}

/// The number that `line` names when it is a single digit from 1 to 9.
pub open spec fn option_number(line: Seq<char>) -> Option<int> {
    if line.len() == 1 && '1' <= line[0] <= '9' {
        Some(line[0] as int - '0' as int)
    } else {
        None
    }
}

/// The option that `line` picks from `options`: the one it numbers,
/// counting from 1. Anything else picks nothing.
pub open spec fn choice_of(options: Seq<Strategy>, line: Seq<char>) -> Option<Strategy> {
    match option_number(line) {
        Some(n) => if n <= options.len() {
            Some(options[n - 1])
        } else {
            None
        },
        None => None,
    }
}

/// The option that `line` picks from `options`.
pub fn choose_option(options: &Vec<Strategy>, line: &str) -> (choice: Option<Strategy>)
    ensures
        choice == choice_of(options@, line@),
{
    let text = chars_of(line);
    if text.len() != 1 {
        return None;
    }
    let c = text[0];
    if c < '1' || c > '9' {
        return None;
    }
    let n: usize = (c as u32 - '0' as u32) as usize;
    if n <= options.len() {
        Some(options[n - 1])
    } else {
        None
    }
}

} // verus!
