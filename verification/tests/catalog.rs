//! Tests of the description catalog: loading from JSON document texts
//! (through the real JSON parser), index and fallback modes, the
//! case-insensitive lookup, and the degraded behavior when the
//! documents directory is missing.

use pluton::utils::Catalog;
use pluton::utils::Document;
use pluton::utils::find_vulnerability_description;
use pluton::utils::load_vulnerability_descriptions;

fn doc(stem: &str, text: &str) -> Document {
    Document { stem: stem.to_string(), text: text.to_string() }
}

#[test]
fn load_with_index_selects_listed_documents_in_order() {
    let index = r#"{"vulnerabilities":[{"id":"bump-seed"},{"id":"absent"},{"id":"reentrancy"}]}"#
        .to_string();
    let docs = vec![
        doc("reentrancy", r#"{"description":"re-entry","secure_example":"guard it"}"#),
        doc("bump-seed", r#"{"description":"non-canonical bump","example_scenario":"forged pda"}"#),
        doc("index", r#"{"vulnerabilities":[]}"#),
    ];
    let catalog = load_vulnerability_descriptions(Some(&index), &docs);
    assert_eq!(catalog.len(), 2);
    assert_eq!(catalog.entries[0].key, "bump-seed");
    assert_eq!(catalog.entries[0].description.as_deref(), Some("non-canonical bump"));
    assert_eq!(catalog.entries[0].example_scenario.as_deref(), Some("forged pda"));
    assert_eq!(catalog.entries[0].secure_example, None);
    assert_eq!(catalog.entries[1].key, "reentrancy");
    assert_eq!(catalog.entries[1].secure_example.as_deref(), Some("guard it"));
}

#[test]
fn load_without_index_keys_every_document_by_stem() {
    let docs = vec![
        doc("reentrancy", r#"{"description":"re-entry"}"#),
        doc("index", r#"{"vulnerabilities":[{"id":"reentrancy"}]}"#),
        doc("overflow", r#"{"description":"wraps around"}"#),
    ];
    let catalog = load_vulnerability_descriptions(None, &docs);
    assert_eq!(catalog.len(), 2);
    assert_eq!(catalog.entries[0].key, "reentrancy");
    assert_eq!(catalog.entries[1].key, "overflow");
    assert_eq!(catalog.entries[1].description.as_deref(), Some("wraps around"));
}

#[test]
fn unparsable_index_yields_an_empty_catalog() {
    let index = "not json at all".to_string();
    let docs = vec![doc("reentrancy", r#"{"description":"re-entry"}"#)];
    let catalog = load_vulnerability_descriptions(Some(&index), &docs);
    assert!(catalog.is_empty());
}

#[test]
fn unparsable_detail_document_degrades_to_empty_fields() {
    let docs = vec![doc("broken", "{{{{")];
    let catalog = load_vulnerability_descriptions(None, &docs);
    assert_eq!(catalog.len(), 1);
    assert_eq!(catalog.entries[0].key, "broken");
    assert_eq!(catalog.entries[0].description, None);
    assert_eq!(catalog.entries[0].example_scenario, None);
    assert_eq!(catalog.entries[0].secure_example, None);
}

#[test]
fn non_string_fields_are_ignored() {
    let docs = vec![doc("odd", r#"{"description":7,"secure_example":"fine"}"#)];
    let catalog = load_vulnerability_descriptions(None, &docs);
    assert_eq!(catalog.entries[0].description, None);
    assert_eq!(catalog.entries[0].secure_example.as_deref(), Some("fine"));
}

#[test]
fn lookup_is_a_case_insensitive_substring_match() {
    let docs = vec![
        doc("Bump-Seed-Canonicalization", r#"{"description":"use the canonical bump"}"#),
        doc("overflow", r#"{"description":"wraps"}"#),
    ];
    let catalog = load_vulnerability_descriptions(None, &docs);
    let hit = find_vulnerability_description("BUMP", &catalog).expect("should match");
    assert_eq!(hit.key, "Bump-Seed-Canonicalization");
    assert_eq!(hit.description.as_deref(), Some("use the canonical bump"));
    let other = find_vulnerability_description("OverFlow", &catalog).expect("should match");
    assert_eq!(other.key, "overflow");
    assert!(find_vulnerability_description("reentrancy", &catalog).is_none());
}

#[test]
fn lookup_ties_go_to_the_entry_loaded_first() {
    let docs = vec![
        doc("bump-one", r#"{"description":"first"}"#),
        doc("bump-two", r#"{"description":"second"}"#),
    ];
    let catalog = load_vulnerability_descriptions(None, &docs);
    let hit = find_vulnerability_description("bump", &catalog).expect("should match");
    assert_eq!(hit.description.as_deref(), Some("first"));
}

#[test]
fn missing_directory_means_an_empty_catalog_and_failing_lookups() {
    let catalog = load_vulnerability_descriptions(None, &vec![]);
    assert!(catalog.is_empty());
    assert_eq!(catalog.len(), 0);
    assert!(find_vulnerability_description("anything", &catalog).is_none());
    assert!(find_vulnerability_description("", &catalog).is_none());
}

#[test]
fn empty_catalog_can_also_be_built_directly() {
    let catalog = Catalog::empty();
    assert!(catalog.is_empty());
    assert!(find_vulnerability_description("bump", &catalog).is_none());
}
