use cargo_fill::field::{Field, ManifestFieldValue, Setting};
use cargo_fill::manifest::{load, render, rendered, ManifestError};
use cargo_fill::resolution::Event;
use cargo_fill::wizard::Wizard;

#[test]
fn a_manifest_is_loaded_with_the_name_of_its_package() {
    let document = load("[package]\nname = \"wizard\"\nversion = \"0.1.0\"\n").unwrap();
    assert_eq!(document.name, "wizard");
    assert!(document.manifest.package.is_some());
}

#[test]
fn text_that_is_no_manifest_is_unparseable() {
    assert!(matches!(load("[package"), Err(ManifestError::Unparseable(_))));
    assert!(matches!(
        load("[package]\nname = 3\n"),
        Err(ManifestError::Unparseable(_))
    ));
}

#[test]
fn a_manifest_without_a_package_is_refused() {
    assert!(matches!(
        load("[workspace]\nmembers = [\"a\"]\n"),
        Err(ManifestError::NoPackage)
    ));
    assert!(matches!(load(""), Err(ManifestError::NoPackage)));
}

#[test]
fn a_rendered_manifest_loads_again() {
    let document = load("[package]\nname = \"wizard\"\nversion = \"0.1.0\"\n").unwrap();
    let text = render(&document.manifest).unwrap();
    assert!(text.contains("name = \"wizard\""));
    assert_eq!(load(&text).unwrap().name, "wizard");
}

#[test]
fn an_author_entered_by_hand_is_the_only_author_of_the_manifest() {
    let text = "[package]\nname = \"wizard\"\nversion = \"0.1.0\"\nauthors = []\n";
    let document = load(text).unwrap();
    let mut manifest = document.manifest;
    let (wizard, _) = Wizard::start(document.name);
    let (wizard, _) = wizard.advance(Event::Line("2".to_string()));
    let (wizard, _) = wizard.advance(Event::Line("Jane Doe <jane@example.com>".to_string()));
    let mut answers = wizard.into_answers();
    match answers.swap_remove(Field::Authors.ordinal()) {
        ManifestFieldValue::Assigned(Setting::List(authors)) => {
            manifest.package.as_mut().unwrap().authors.set(authors)
        }
        other => panic!("the authors were not set: {:?}", other),
    }
    let written = render(&manifest).unwrap();
    let read_back = load(&written).unwrap().manifest;
    assert_eq!(
        read_back.package.unwrap().authors.get().unwrap(),
        &vec!["Jane Doe <jane@example.com>".to_string()]
    );
}

#[test]
fn the_writers_answer_is_passed_on() {
    let text = "[package]\nname = \"wizard\"\n".to_string();
    assert!(matches!(rendered(Ok(text.clone())), Ok(t) if t == text));
    let refused = toml::ser::to_string_pretty(&42u8);
    assert!(refused.is_err());
    let error = refused.clone().unwrap_err();
    assert!(matches!(rendered(refused), Err(ManifestError::Unrenderable(e)) if e == error));
}

#[test]
fn the_loaded_manifest_is_the_one_that_the_text_holds() {
    let text = "[package]\nname = \"wizard\"\nversion = \"1.2.3\"\ndescription = \"asks\"\n\n\
        [dependencies]\nserde = \"1\"\n";
    let manifest = load(text).unwrap().manifest;
    let package = manifest.package.as_ref().unwrap();
    assert_eq!(package.name, "wizard");
    assert_eq!(package.description(), Some("asks"));
    assert_eq!(package.version.get().unwrap().to_string(), "1.2.3");
    assert!(manifest.dependencies.contains_key("serde"));
    assert_eq!(manifest.dependencies.len(), 1);
}
