use bc_tags::{
    catalog, registration_tags, CATALOG_LEN, TAG_DATE, TAG_ENCODED_CBOR, TAG_ENVELOPE, TAG_HDKEY,
    TAG_HDKEY_V1, TAG_KNOWN_VALUE, TAG_LEAF, TAG_NAME_ENCODED_CBOR, TAG_NAME_ENVELOPE,
    TAG_NAME_HDKEY, TAG_NAME_HDKEY_V1, TAG_NAME_KNOWN_VALUE, TAG_NAME_LEAF,
    TAG_NAME_OUTPUT_COSIGNER, TAG_NAME_PROVENANCE_MARK, TAG_NAME_SSH_TEXT_CERTIFICATE,
    TAG_NAME_URI, TAG_NAME_UUID, TAG_OUTPUT_COSIGNER, TAG_PROVENANCE_MARK,
    TAG_SSH_TEXT_CERTIFICATE, TAG_URI, TAG_UUID,
};

#[test]
fn constants_have_their_wire_values() {
    assert_eq!(TAG_DATE, 1);
    assert_eq!((TAG_URI, TAG_NAME_URI), (32, "url"));
    assert_eq!((TAG_UUID, TAG_NAME_UUID), (37, "uuid"));
    assert_eq!((TAG_ENCODED_CBOR, TAG_NAME_ENCODED_CBOR), (24, "encoded-cbor"));
    assert_eq!((TAG_ENVELOPE, TAG_NAME_ENVELOPE), (200, "envelope"));
    assert_eq!((TAG_LEAF, TAG_NAME_LEAF), (201, "leaf"));
    assert_eq!((TAG_KNOWN_VALUE, TAG_NAME_KNOWN_VALUE), (40000, "known-value"));
    assert_eq!((TAG_HDKEY, TAG_NAME_HDKEY), (40303, "hdkey"));
    assert_eq!((TAG_HDKEY_V1, TAG_NAME_HDKEY_V1), (303, "crypto-hdkey"));
    assert_eq!(
        (TAG_SSH_TEXT_CERTIFICATE, TAG_NAME_SSH_TEXT_CERTIFICATE),
        (40803, "ssh-certificate")
    );
    assert_eq!((TAG_OUTPUT_COSIGNER, TAG_NAME_OUTPUT_COSIGNER), (410, "output-cosigner"));
    assert_eq!((TAG_PROVENANCE_MARK, TAG_NAME_PROVENANCE_MARK), (1347571542, "provenance"));
}

#[test]
fn catalog_has_every_tag_once() {
    let specs = catalog();
    assert_eq!(CATALOG_LEN, 74);
    assert_eq!(specs.len(), CATALOG_LEN);
    for i in 0..specs.len() {
        for j in (i + 1)..specs.len() {
            assert_ne!(specs[i].number(), specs[j].number());
            assert_ne!(specs[i].name(), specs[j].name());
        }
    }
}

#[test]
fn catalog_is_in_registration_order() {
    let specs = catalog();
    assert_eq!((specs[0].number(), specs[0].name()), (32, "url"));
    assert_eq!((specs[1].number(), specs[1].name()), (37, "uuid"));
    assert_eq!((specs[2].number(), specs[2].name()), (24, "encoded-cbor"));
    assert_eq!((specs[15].number(), specs[15].name()), (40026, "event"));
    assert_eq!((specs[16].number(), specs[16].name()), (300, "crypto-seed"));
    assert_eq!((specs[45].number(), specs[45].name()), (303, "crypto-hdkey"));
    assert_eq!((specs[51].number(), specs[51].name()), (40303, "hdkey"));
    assert_eq!((specs[72].number(), specs[72].name()), (410, "output-cosigner"));
    assert_eq!((specs[73].number(), specs[73].name()), (1347571542, "provenance"));
}

#[test]
fn catalog_names_are_not_empty() {
    for spec in catalog() {
        assert!(!spec.name().is_empty());
    }
}

#[test]
fn registration_set_is_the_date_and_then_the_catalog() {
    let all = registration_tags();
    assert_eq!(all.len(), CATALOG_LEN + 1);
    assert_eq!((all[0].number(), all[0].name()), (1, "date"));
    assert_eq!(all[1..].to_vec(), catalog());
}

#[test]
fn registration_set_has_every_tag_once() {
    let all = registration_tags();
    for i in 0..all.len() {
        for j in (i + 1)..all.len() {
            assert_ne!(all[i].number(), all[j].number());
            assert_ne!(all[i].name(), all[j].name());
        }
    }
}

#[test]
fn catalog_numbers_lie_in_their_ranges() {
    let mut core = 0;
    let mut superseded = 0;
    let mut current = 0;
    let mut large = 0;
    for spec in catalog() {
        let n = spec.number();
        if (24..=255).contains(&n) {
            core += 1;
        } else if (256..=39999).contains(&n) {
            superseded += 1;
        } else if (40000..=40999).contains(&n) {
            current += 1;
        } else {
            assert!(n >= 1 << 20);
            large += 1;
        }
    }
    assert_eq!((core, superseded, current, large), (5, 20, 48, 1));
}
