//! The manifest fields that the wizard asks for, in the order in which it
//! asks, and the values they take.

use vstd::prelude::*;
use crate::text::views;

verus! {

/// How many fields there are.
pub const FIELD_COUNT: usize = 23;

/// How many fields are asked before the miscellaneous ones.
pub const MAIN_FIELD_COUNT: usize = 11;

/// A field of the package section.
#[derive(Clone, Copy, Debug, PartialEq, Eq, Structural)]
pub enum Field {
    Authors,
    RustVersion,
    Description,
    Documentation,
    Readme,
    Homepage,
    Repository,
    License,
    LicenseFile,
    Keywords,
    Categories,
    Workspace,
    Build,
    Links,
    Exclude,
    Include,
    Publish,
    DefaultRun,
    Autobins,
    Autoexamples,
    Autotests,
    Autobenches,
    Resolver,
}

/// A version of the dependency resolver.
#[derive(Clone, Copy, Debug, PartialEq, Eq, Structural)]
pub enum ResolverVersion {
    V1,
    V2,
    V3,
}

/// The kinds of value there are.
#[derive(Clone, Copy, Debug, PartialEq, Eq, Structural)]
pub enum Kind {
    Text,
    List,
    Flag,
    Resolver,
}

/// A value that a field can be set to.
#[derive(Clone, Debug, PartialEq, Eq)]
pub enum Setting {
    Text(String),
    List(Vec<String>),
    Flag(bool),
    Resolver(ResolverVersion),
}

/// The mathematical content of a [`Setting`].
pub enum SettingView {
    Text(Seq<char>),
    List(Seq<Seq<char>>),
    Flag(bool),
    Resolver(ResolverVersion),
}

impl View for Setting {
    type V = SettingView;

    open spec fn view(&self) -> SettingView {
        match self {
            Setting::Text(text) => SettingView::Text(text@),
            Setting::List(items) => SettingView::List(views(items@)),
            Setting::Flag(flag) => SettingView::Flag(*flag),
            Setting::Resolver(version) => SettingView::Resolver(*version),
        }
    }
}

impl SettingView {
    /// The kind of the value.
    pub open spec fn kind(self) -> Kind {
        match self {
            SettingView::Text(_) => Kind::Text,
            SettingView::List(_) => Kind::List,
            SettingView::Flag(_) => Kind::Flag,
            SettingView::Resolver(_) => Kind::Resolver,
        }
    }
}

/// What is known of one field.
#[derive(Clone, Debug, PartialEq, Eq)]
pub enum ManifestFieldValue<T> {
    /// The field was never asked for.
    Absent,
    /// The user chose to leave the field as it is.
    Skipped,
    /// The field takes its value from the workspace.
    Inherited,
    /// The field has this value.
    Assigned(T),
}

impl Field {
    /// The place of the field in the order of asking, from 0.
    pub open spec fn index(self) -> int {
        match self {
            Field::Authors => 0,
            Field::RustVersion => 1,
            Field::Description => 2,
            Field::Documentation => 3,
            Field::Readme => 4,
            Field::Homepage => 5,
            Field::Repository => 6,
            Field::License => 7,
            Field::LicenseFile => 8,
            Field::Keywords => 9,
            Field::Categories => 10,
            Field::Workspace => 11,
            Field::Build => 12,
            Field::Links => 13,
            Field::Exclude => 14,
            Field::Include => 15,
            Field::Publish => 16,
            Field::DefaultRun => 17,
            Field::Autobins => 18,
            Field::Autoexamples => 19,
            Field::Autotests => 20,
            Field::Autobenches => 21,
            Field::Resolver => 22,
        }
    }

    /// The field asked at place `i`, if there is one.
    pub open spec fn at_index(i: int) -> Option<Field> {
        if i == 0 {
            Some(Field::Authors)
        } else if i == 1 {
            Some(Field::RustVersion)
        } else if i == 2 {
            Some(Field::Description)
        } else if i == 3 {
            Some(Field::Documentation)
        } else if i == 4 {
            Some(Field::Readme)
        } else if i == 5 {
            Some(Field::Homepage)
        } else if i == 6 {
            Some(Field::Repository)
        } else if i == 7 {
            Some(Field::License)
        } else if i == 8 {
            Some(Field::LicenseFile)
        } else if i == 9 {
            Some(Field::Keywords)
        } else if i == 10 {
            Some(Field::Categories)
        } else if i == 11 {
            Some(Field::Workspace)
        } else if i == 12 {
            Some(Field::Build)
        } else if i == 13 {
            Some(Field::Links)
        } else if i == 14 {
            Some(Field::Exclude)
        } else if i == 15 {
            Some(Field::Include)
        } else if i == 16 {
            Some(Field::Publish)
        } else if i == 17 {
            Some(Field::DefaultRun)
        } else if i == 18 {
            Some(Field::Autobins)
        } else if i == 19 {
            Some(Field::Autoexamples)
        } else if i == 20 {
            Some(Field::Autotests)
        } else if i == 21 {
            Some(Field::Autobenches)
        } else if i == 22 {
            Some(Field::Resolver)
        } else {
            None
        }
    }

    /// The field belongs to the miscellaneous ones, which are asked only
    /// on request.
    pub open spec fn is_miscellaneous(self) -> bool {
        self.index() >= MAIN_FIELD_COUNT
    }

    /// The field can be set to a value of `kind`. Most fields take one
    /// kind; `publish` takes a flag or a list of registries.
    pub open spec fn takes(self, kind: Kind) -> bool {
        match self {
            Field::Authors
            | Field::Keywords
            | Field::Categories
            | Field::Exclude
            | Field::Include => kind == Kind::List,
            Field::Publish => kind == Kind::Flag || kind == Kind::List,
            Field::Autobins
            | Field::Autoexamples
            | Field::Autotests
            | Field::Autobenches => kind == Kind::Flag,
            Field::Resolver => kind == Kind::Resolver,
            _ => kind == Kind::Text,
        }
    }

    /// The place of the field in the order of asking, from 0.
    pub fn ordinal(self) -> (i: usize)
        ensures
            i == self.index(),
            i < FIELD_COUNT,
            Field::at_index(i as int) == Some(self),
    {
        match self {
            Field::Authors => 0,
            Field::RustVersion => 1,
            Field::Description => 2,
            Field::Documentation => 3,
            Field::Readme => 4,
            Field::Homepage => 5,
            Field::Repository => 6,
            Field::License => 7,
            Field::LicenseFile => 8,
            Field::Keywords => 9,
            Field::Categories => 10,
            Field::Workspace => 11,
            Field::Build => 12,
            Field::Links => 13,
            Field::Exclude => 14,
            Field::Include => 15,
            Field::Publish => 16,
            Field::DefaultRun => 17,
            Field::Autobins => 18,
            Field::Autoexamples => 19,
            Field::Autotests => 20,
            Field::Autobenches => 21,
            Field::Resolver => 22,
        }
    }

    /// The field asked at place `i`; `None` from `FIELD_COUNT` on.
    pub fn at(i: usize) -> (field: Option<Field>)
        ensures
            field == Field::at_index(i as int),
            field is Some <==> i < FIELD_COUNT,
            field matches Some(f) ==> f.index() == i,
    {
        match i {
            0 => Some(Field::Authors),
            1 => Some(Field::RustVersion),
            2 => Some(Field::Description),
            3 => Some(Field::Documentation),
            4 => Some(Field::Readme),
            5 => Some(Field::Homepage),
            6 => Some(Field::Repository),
            7 => Some(Field::License),
            8 => Some(Field::LicenseFile),
            9 => Some(Field::Keywords),
            10 => Some(Field::Categories),
            11 => Some(Field::Workspace),
            12 => Some(Field::Build),
            13 => Some(Field::Links),
            14 => Some(Field::Exclude),
            15 => Some(Field::Include),
            16 => Some(Field::Publish),
            17 => Some(Field::DefaultRun),
            18 => Some(Field::Autobins),
            19 => Some(Field::Autoexamples),
            20 => Some(Field::Autotests),
            21 => Some(Field::Autobenches),
            22 => Some(Field::Resolver),
            _ => None,
        }
    }
}

} // verus!
