use phonedb::database::Database;
use phonedb::raw::{RawDescriptor, RawMetadata};

fn record(id: &str, code: u16) -> RawMetadata {
    RawMetadata {
        general: Some(RawDescriptor {
            national_number: Some("[0-9]+".to_string()),
            ..Default::default()
        }),
        id: Some(id.to_string()),
        country_code: Some(code),
        ..Default::default()
    }
}

fn build(records: Vec<RawMetadata>) -> Database {
    Database::from(records).expect("all records are valid")
}

#[test]
fn by_id_finds_each_distinct_id() {
    let db = build(vec![record("DE", 49), record("US", 1), record("CA", 1)]);
    assert_eq!(db.by_id("DE").expect("present").country_code, 49);
    assert_eq!(db.by_id("US").expect("present").country_code, 1);
    assert_eq!(db.by_id("CA").expect("present").country_code, 1);
    assert!(db.by_id("FR").is_none());
}

#[test]
fn duplicate_id_overwrites_earlier_entry() {
    let db = build(vec![record("AA", 1), record("AA", 2)]);
    // The identity index keeps one entry per distinct id: the later record.
    assert_eq!(db.by_id("AA").expect("present").country_code, 2);
    // The code groupings still hold both records.
    assert_eq!(db.by_code(1).expect("present").len(), 1);
    assert_eq!(db.by_code(2).expect("present").len(), 1);
}

#[test]
fn by_code_groups_in_input_order() {
    let db = build(vec![
        record("A", 7),
        record("X", 8),
        record("B", 7),
        record("C", 7),
    ]);
    let group: Vec<&str> = db.by_code(7).expect("present").iter().map(|m| m.id.as_str()).collect();
    assert_eq!(group, vec!["A", "B", "C"]);
    let regions = db.region(7).expect("present");
    assert_eq!(regions, vec!["A", "B", "C"]);
    assert!(db.by_code(9).is_none());
    assert!(db.region(9).is_none());
}

#[test]
fn regions_mirror_by_code_positionally() {
    let db = build(vec![record("DE", 49), record("US", 1), record("CA", 1), record("KZ", 7)]);
    for m in db.records() {
        let group = db.by_code(m.country_code).expect("own code is indexed");
        let regions = db.region(m.country_code).expect("own code is indexed");
        assert_eq!(group.len(), regions.len());
        let position = group
            .iter()
            .position(|g| g.id == m.id)
            .expect("the record stands in its own group");
        assert_eq!(regions[position], m.id.as_str());
    }
}

#[test]
fn construction_is_all_or_nothing() {
    let mut bad = record("BB", 2);
    bad.id = None;
    let result = Database::from(vec![record("AA", 1), bad]);
    assert!(result.is_err());
}

#[test]
fn empty_input_builds_an_empty_database() {
    let db = build(Vec::new());
    assert!(db.by_id("AA").is_none());
    assert!(db.by_code(1).is_none());
    assert!(db.region(1).is_none());
    assert!(db.records().is_empty());
}

#[test]
fn rebuild_from_derived_records_is_stable() {
    let first = build(vec![
        record("DE", 49),
        record("US", 1),
        record("CA", 1),
        record("AA", 1),
        record("AA", 7),
    ]);
    let second = build(first.to_raw());
    for id in ["DE", "US", "CA", "AA", "ZZ"] {
        match (first.by_id(id), second.by_id(id)) {
            (Some(a), Some(b)) => {
                assert_eq!(a.id, b.id);
                assert_eq!(a.country_code, b.country_code);
            },
            (None, None) => {},
            _ => panic!("identity lookups disagree for {}", id),
        }
    }
    for code in [1u16, 7, 49, 99] {
        let first_ids: Option<Vec<&str>> = first.region(code);
        let second_ids: Option<Vec<&str>> = second.region(code);
        assert_eq!(first_ids, second_ids);
        let first_group: Option<Vec<&str>> =
            first.by_code(code).map(|g| g.iter().map(|m| m.id.as_str()).collect());
        let second_group: Option<Vec<&str>> =
            second.by_code(code).map(|g| g.iter().map(|m| m.id.as_str()).collect());
        assert_eq!(first_group, second_group);
    }
}

#[test]
fn derived_records_revalidate_to_the_same_fields() {
    let db = build(vec![record("DE", 49)]);
    let raws = db.to_raw();
    assert_eq!(raws.len(), 1);
    assert_eq!(raws[0].id.as_deref(), Some("DE"));
    assert_eq!(raws[0].country_code, Some(49));
    assert_eq!(
        raws[0].general.as_ref().expect("present").national_number.as_deref(),
        Some("[0-9]+"),
    );
}

#[test]
fn cloned_database_answers_alike() {
    let db = build(vec![record("DE", 49), record("US", 1)]);
    let copy = db.clone();
    assert_eq!(copy.by_id("DE").expect("present").country_code, 49);
    assert_eq!(copy.region(1).expect("present"), vec!["US"]);
    assert_eq!(copy.records().len(), db.records().len());
}
