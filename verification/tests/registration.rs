use bc_tags::{
    catalog, register_tags_in, registration_tags, try_register_tags_in, TagError, TagSpec,
    TagTable, TAG_HDKEY, TAG_HDKEY_V1, TAG_NAME_HDKEY, TAG_NAME_HDKEY_V1,
};
use dcbor::{Tag, TagsStore, TagsStoreTrait};

fn tag(number: u64, name: &str) -> TagSpec {
    TagSpec::new(number, name).unwrap()
}

fn registered() -> TagTable {
    let mut table = TagTable::new();
    assert_eq!(table.register_tags(), Ok(()));
    table
}

#[test]
fn every_registered_number_gives_its_name() {
    let table = registered();
    for spec in registration_tags() {
        let found = table.lookup_by_number(spec.number()).unwrap();
        assert_eq!(found.name(), spec.name());
        assert!(table.contains_number(spec.number()));
    }
}

#[test]
fn every_registered_name_gives_its_number() {
    let table = registered();
    for spec in registration_tags() {
        let found = table.lookup_by_name(spec.name()).unwrap();
        assert_eq!(found.number(), spec.number());
        assert!(table.contains_name(spec.name()));
    }
}

#[test]
fn registered_examples_are_found() {
    let table = registered();
    assert_eq!(table.lookup_by_number(200), Some(tag(200, "envelope")));
    assert_eq!(table.lookup_by_number(24), Some(tag(24, "encoded-cbor")));
    assert_eq!(table.lookup_by_name("leaf"), Some(tag(201, "leaf")));
    assert_eq!(table.lookup_by_name("provenance"), Some(tag(1347571542, "provenance")));
}

#[test]
fn the_date_tag_is_registered_with_the_catalog() {
    let table = registered();
    assert_eq!(table.lookup_by_number(1), Some(tag(1, "date")));
    assert_eq!(table.lookup_by_name("date"), Some(tag(1, "date")));
}

#[test]
fn unregistered_numbers_are_absent() {
    let table = registered();
    assert_eq!(table.lookup_by_number(0), None);
    assert_eq!(table.lookup_by_number(999999999), None);
    assert_eq!(table.lookup_by_number(2), None);
    assert_eq!(table.lookup_by_number(u64::MAX), None);
    assert!(!table.contains_number(0));
    assert!(!table.contains_number(999999999));
}

#[test]
fn the_catalog_alone_leaves_the_date_out() {
    let mut table = TagTable::new();
    assert_eq!(table.insert_all(catalog()), Ok(()));
    assert_eq!(table.lookup_by_number(0), None);
    assert_eq!(table.lookup_by_number(1), None);
    assert_eq!(table.lookup_by_number(999999999), None);
    assert_eq!(table.lookup_by_name("date"), None);
}

#[test]
fn unregistered_names_are_absent() {
    let table = registered();
    assert_eq!(table.lookup_by_name("no-such-tag"), None);
    assert_eq!(table.lookup_by_name(""), None);
    assert_eq!(table.lookup_by_name("Envelope"), None);
    assert!(!table.contains_name("no-such-tag"));
}

#[test]
fn only_the_registration_set_is_registered() {
    let table = registered();
    let all = registration_tags();
    for number in 0..50000u64 {
        let listed = all.iter().any(|spec| spec.number() == number);
        assert_eq!(table.contains_number(number), listed);
    }
}

#[test]
fn a_registered_number_cannot_be_inserted_again() {
    let mut table = registered();
    assert_eq!(table.insert(tag(40303, "another-hdkey")), Err(TagError::DuplicateTagNumber));
    assert_eq!(table.lookup_by_number(40303), Some(tag(40303, "hdkey")));
    assert_eq!(table.lookup_by_name("another-hdkey"), None);
}

#[test]
fn a_registered_name_cannot_be_inserted_again() {
    let mut table = registered();
    assert_eq!(table.insert(tag(50000, "hdkey")), Err(TagError::DuplicateTagName));
    assert_eq!(table.lookup_by_name("hdkey"), Some(tag(40303, "hdkey")));
    assert_eq!(table.lookup_by_number(50000), None);
}

#[test]
fn a_new_tag_can_be_added_after_registration() {
    let mut table = registered();
    assert_eq!(table.insert(tag(50000, "application")), Ok(()));
    assert_eq!(table.lookup_by_number(50000), Some(tag(50000, "application")));
    assert_eq!(table.lookup_by_number(200), Some(tag(200, "envelope")));
}

#[test]
fn registering_twice_changes_nothing() {
    let mut table = registered();
    assert_eq!(table.register_tags(), Ok(()));
    assert_eq!(table.register_tags(), Ok(()));
    for spec in registration_tags() {
        assert_eq!(table.lookup_by_number(spec.number()), Some(spec.clone()));
        assert_eq!(table.lookup_by_name(spec.name()), Some(spec));
    }
    assert_eq!(table.lookup_by_number(0), None);
}

#[test]
fn registering_after_the_catalog_was_inserted_succeeds() {
    let mut table = TagTable::new();
    assert_eq!(table.insert_all(catalog()), Ok(()));
    assert_eq!(table.register_tags(), Ok(()));
    assert_eq!(table.lookup_by_number(1), Some(tag(1, "date")));
}

#[test]
fn superseded_and_current_tags_are_both_found() {
    let table = registered();
    assert_eq!((TAG_HDKEY_V1, TAG_NAME_HDKEY_V1), (303, "crypto-hdkey"));
    assert_eq!((TAG_HDKEY, TAG_NAME_HDKEY), (40303, "hdkey"));
    assert_eq!(table.lookup_by_name("crypto-hdkey").unwrap().number(), 303);
    assert_eq!(table.lookup_by_name("hdkey").unwrap().number(), 40303);
    assert_eq!(table.lookup_by_number(303).unwrap().name(), "crypto-hdkey");
    assert_eq!(table.lookup_by_number(40303).unwrap().name(), "hdkey");
    assert_eq!(table.lookup_by_name("crypto-seed").unwrap().number(), 300);
    assert_eq!(table.lookup_by_name("seed").unwrap().number(), 40300);
    assert_eq!(table.lookup_by_number(24).unwrap().name(), "encoded-cbor");
    assert_eq!(table.lookup_by_number(201).unwrap().name(), "leaf");
}

#[test]
fn table_registration_refuses_a_number_under_another_name() {
    let mut table = TagTable::new();
    assert_eq!(table.insert(tag(200, "wrapper")), Ok(()));
    assert_eq!(table.register_tags(), Err(TagError::DuplicateTagNumber));
    assert_eq!(table.lookup_by_number(200), Some(tag(200, "wrapper")));
    assert_eq!(table.lookup_by_number(1), None);
    assert_eq!(table.lookup_by_number(32), None);
}

#[test]
fn table_registration_refuses_a_name_under_another_number() {
    let mut table = TagTable::new();
    assert_eq!(table.insert(tag(50000, "envelope")), Ok(()));
    assert_eq!(table.register_tags(), Err(TagError::DuplicateTagName));
    assert_eq!(table.lookup_by_name("envelope"), Some(tag(50000, "envelope")));
    assert_eq!(table.lookup_by_number(200), None);
    assert_eq!(table.lookup_by_number(1), None);
}

#[test]
fn register_tags_in_fills_a_store() {
    let mut store = TagsStore::default();
    register_tags_in(&mut store);
    for spec in registration_tags() {
        assert_eq!(store.name_for_value(spec.number()), spec.name());
        assert_eq!(store.tag_for_name(spec.name()).unwrap().value(), spec.number());
    }
    assert!(store.tag_for_value(0).is_none());
    assert!(store.tag_for_value(999999999).is_none());
    assert_eq!(store.name_for_value(999999999), "999999999");
}

#[test]
fn register_tags_in_registers_what_the_codec_registers() {
    let mut store = TagsStore::default();
    register_tags_in(&mut store);
    assert_eq!(store.name_for_value(1), "date");
    assert!(store.summarizer(1).is_some());
    assert!(store.summarizer(200).is_none());
}

#[test]
fn register_tags_in_keeps_what_the_store_held() {
    let mut store = TagsStore::default();
    store.insert(Tag::new(50000, "application"));
    register_tags_in(&mut store);
    assert_eq!(store.name_for_value(50000), "application");
    assert_eq!(store.tag_for_name("application").unwrap().value(), 50000);
    assert_eq!(store.name_for_value(200), "envelope");
}

#[test]
fn register_tags_in_can_run_twice() {
    let mut store = TagsStore::default();
    register_tags_in(&mut store);
    register_tags_in(&mut store);
    for spec in registration_tags() {
        assert_eq!(store.name_for_value(spec.number()), spec.name());
        assert_eq!(store.tag_for_name(spec.name()).unwrap().value(), spec.number());
    }
}

#[test]
fn try_register_tags_in_fills_an_empty_store() {
    let mut store = TagsStore::default();
    assert_eq!(try_register_tags_in(&mut store), Ok(()));
    assert_eq!(store.name_for_value(40001), "digest");
    assert_eq!(store.tag_for_name("crypto-psbt").unwrap().value(), 310);
    assert_eq!(try_register_tags_in(&mut store), Ok(()));
    assert_eq!(store.name_for_value(40001), "digest");
}

#[test]
fn try_register_tags_in_skips_what_is_there() {
    let mut store = TagsStore::default();
    store.insert(Tag::new(200, "envelope"));
    store.insert(Tag::new(1, "date"));
    assert_eq!(try_register_tags_in(&mut store), Ok(()));
    assert_eq!(store.name_for_value(200), "envelope");
    assert_eq!(store.name_for_value(201), "leaf");
}

#[test]
fn try_register_tags_in_reports_a_number_under_another_name() {
    let mut store = TagsStore::default();
    store.insert(Tag::new(32, "uri"));
    assert_eq!(try_register_tags_in(&mut store), Err(TagError::DuplicateTagNumber));
    assert_eq!(store.name_for_value(32), "uri");
    assert!(store.tag_for_value(1).is_none());
    assert!(store.tag_for_value(37).is_none());
    assert!(store.tag_for_name("url").is_none());
}

#[test]
fn try_register_tags_in_reports_a_name_under_another_number() {
    let mut store = TagsStore::default();
    store.insert(Tag::new(50000, "url"));
    assert_eq!(try_register_tags_in(&mut store), Err(TagError::DuplicateTagName));
    assert_eq!(store.tag_for_name("url").unwrap().value(), 50000);
    assert!(store.tag_for_value(32).is_none());
    assert!(store.tag_for_value(1).is_none());
}

#[test]
fn try_register_tags_in_reports_the_date_first() {
    let mut store = TagsStore::default();
    store.insert(Tag::new(50000, "date"));
    store.insert(Tag::new(32, "uri"));
    assert_eq!(try_register_tags_in(&mut store), Err(TagError::DuplicateTagName));
}

#[test]
fn try_register_tags_in_reports_the_first_clash_in_order() {
    let mut store = TagsStore::default();
    store.insert(Tag::new(50000, "uuid"));
    store.insert(Tag::new(32, "uri"));
    assert_eq!(try_register_tags_in(&mut store), Err(TagError::DuplicateTagNumber));
    let mut store = TagsStore::default();
    store.insert(Tag::new(50000, "url"));
    store.insert(Tag::new(37, "guid"));
    assert_eq!(try_register_tags_in(&mut store), Err(TagError::DuplicateTagName));
}
