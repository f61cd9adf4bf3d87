use bc_tags::{TagError, TagSpec};

#[test]
fn new_keeps_number_and_name() {
    let spec = TagSpec::new(200, "envelope").unwrap();
    assert_eq!(spec.number(), 200);
    assert_eq!(spec.name(), "envelope");
}

#[test]
fn new_takes_the_largest_number() {
    let spec = TagSpec::new(u64::MAX, "x").unwrap();
    assert_eq!(spec.number(), u64::MAX);
    assert_eq!(spec.name(), "x");
}

#[test]
fn new_takes_a_name_that_is_not_ascii() {
    let spec = TagSpec::new(7, "clé").unwrap();
    assert_eq!(spec.name(), "clé");
}

#[test]
fn new_refuses_an_empty_name() {
    assert_eq!(TagSpec::new(200, ""), Err(TagError::InvalidTagSpec));
}

#[test]
fn tags_are_equal_when_number_and_name_are() {
    let a = TagSpec::new(1, "date").unwrap();
    let b = TagSpec::new(1, "date").unwrap();
    assert_eq!(a, b);
    assert_ne!(a, TagSpec::new(2, "date").unwrap());
    assert_ne!(a, TagSpec::new(1, "time").unwrap());
}

#[test]
fn clone_is_equal_to_its_source() {
    let a = TagSpec::new(40001, "digest").unwrap();
    let b = a.clone();
    assert_eq!(a, b);
    assert_eq!(b.number(), 40001);
    assert_eq!(b.name(), "digest");
}

#[test]
fn same_name_looks_at_the_name_alone() {
    let a = TagSpec::new(303, "hdkey").unwrap();
    assert!(a.same_name(&TagSpec::new(40303, "hdkey").unwrap()));
    assert!(!a.same_name(&TagSpec::new(303, "crypto-hdkey").unwrap()));
}
