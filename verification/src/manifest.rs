//! The manifest as a document: from text to the parsed manifest, and from
//! the manifest back to text.
//!
//! Parsing and writing are the work of the `toml` crate on the manifest
//! type of `cargo_toml`. A parsed manifest is carried through as it is;
//! the wizard needs only the name of the package from it.

use vstd::prelude::*;

verus! {

/// `cargo_toml::Manifest`, the parsed manifest. Nothing is said of what
/// it holds.
#[verifier::external_type_specification]
#[verifier::external_body]
#[verifier::reject_recursive_types(Metadata)]
pub struct ExManifest<Metadata>(cargo_toml::Manifest<Metadata>);

/// `toml::Value`, the type of a manifest's free-form metadata. Nothing is
/// said of what it holds.
#[verifier::external_type_specification]
#[verifier::external_body]
pub struct ExTomlValue(toml::Value);

/// `toml::de::Error`, the parser's error. Nothing is said of what it
/// holds.
#[verifier::external_type_specification]
#[verifier::external_body]
pub struct ExDecodeError(toml::de::Error);

/// `toml::ser::Error`, the writer's error. Nothing is said of what it
/// holds.
#[verifier::external_type_specification]
#[verifier::external_body]
pub struct ExEncodeError(toml::ser::Error);

/// Whether `text` parses as a manifest.
pub uninterp spec fn parses(text: Seq<char>) -> bool;

/// The manifest that `text` parses to.
pub uninterp spec fn parsed(text: Seq<char>) -> cargo_toml::Manifest<toml::Value>;

/// The name in the package section of the manifest that `text` parses to;
/// `None` when that manifest has no package section.
pub uninterp spec fn package_named(text: Seq<char>) -> Option<Seq<char>>;

/// The text that the writer makes of `manifest`; `None` when it can make
/// none.
pub uninterp spec fn written(manifest: cargo_toml::Manifest<toml::Value>) -> Option<Seq<char>>;

/// Why there is no manifest to work on, or no text to write.
#[derive(Debug)]
pub enum ManifestError {
    /// The text is no manifest.
    Unparseable(toml::de::Error),
    /// The manifest has no package section.
    NoPackage,
    /// The manifest could not be written as text.
    Unrenderable(toml::ser::Error),
}

/// A parsed manifest that has a package section, with the name of the
/// package.
#[derive(Debug)]
pub struct Document {
    pub manifest: cargo_toml::Manifest<toml::Value>,
    pub name: String,
}

/// Calls `toml::from_str` for a `cargo_toml::Manifest`, and reads the
/// `name` of the package section of what it gave. Whether the text parses,
/// what it parses to and which package it names depend on the text alone.
#[verifier::external_body]
fn decode(text: &str) -> (r: Result<
    (cargo_toml::Manifest<toml::Value>, Option<String>),
    toml::de::Error,
>)
    ensures
        r is Ok <==> parses(text@),
        r matches Ok(found) ==> found.0 == parsed(text@),
        r matches Ok(found) ==> match found.1 {
            Some(name) => package_named(text@) == Some(name@),
            None => package_named(text@) is None,
        },
{
    let manifest: cargo_toml::Manifest<toml::Value> = toml::from_str(text)?;
    let name = manifest.package.as_ref().map(|package| package.name.clone());
    Ok((manifest, name))
}

/// Calls `toml::ser::to_string_pretty` on the manifest. The text depends on
/// the manifest alone: its tables are ordered.
#[verifier::external_body]
fn encode(manifest: &cargo_toml::Manifest<toml::Value>) -> (r: Result<String, toml::ser::Error>)
    ensures
        match r {
            Ok(text) => written(*manifest) == Some(text@),
            Err(_) => written(*manifest) is None,
        },
{
    toml::ser::to_string_pretty(manifest)
}

/// The document for a parsed manifest and the name read from its package
/// section: without a name there is no package to fill in.
pub fn document(manifest: cargo_toml::Manifest<toml::Value>, name: Option<String>) -> (r: Result<
    Document,
    ManifestError,
>)
    ensures
        match name {
            Some(n) => r matches Ok(d) && d.manifest == manifest && d.name == n,
            None => r matches Err(ManifestError::NoPackage),
        },
{
    match name {
        Some(name) => Ok(Document { manifest, name }),
        None => Err(ManifestError::NoPackage),
    }
}

/// Parses `text` as a manifest and looks for its package.
///
/// Text that does not parse gives `Unparseable` with the parser's error; a
/// manifest without a package section gives `NoPackage`; any other text
/// gives the document: the manifest that the text parses to, with the name
/// of its package.
pub fn load(text: &str) -> (r: Result<Document, ManifestError>)
    ensures
        !parses(text@) <==> r matches Err(ManifestError::Unparseable(_)),
        parses(text@) && package_named(text@) is None <==> r matches Err(
            ManifestError::NoPackage,
        ),
        r is Ok <==> parses(text@) && package_named(text@) is Some,
        r matches Ok(d) ==> d.manifest == parsed(text@),
        r matches Ok(d) ==> package_named(text@) == Some(d.name@),
{
    match decode(text) {
        Err(error) => Err(ManifestError::Unparseable(error)),
        Ok((manifest, name)) => document(manifest, name),
    }
}

/// The manifest as text: what the writer makes of it. A manifest of which
/// the writer can make no text gives `Unrenderable` with the writer's
/// error.
pub fn render(manifest: &cargo_toml::Manifest<toml::Value>) -> (r: Result<String, ManifestError>)
    ensures
        match r {
            Ok(text) => written(*manifest) == Some(text@),
            Err(e) => written(*manifest) is None && e is Unrenderable,
        },
{
    rendered(encode(manifest))
}

/// What rendering returns for the writer's answer: the text as the writer
/// gave it, or `Unrenderable` with the writer's error.
pub fn rendered(written: Result<String, toml::ser::Error>) -> (r: Result<String, ManifestError>)
    ensures
        match written {
            Ok(text) => r matches Ok(t) && t == text,
            Err(error) => r matches Err(ManifestError::Unrenderable(e)) && e == error,
        },
{
    match written {
        Ok(text) => Ok(text),
        Err(error) => Err(ManifestError::Unrenderable(error)),
    }
}

} // verus!
