//! The catalog: the tags that this format defines, each with its number and
//! its name. Numbers and names are part of the wire format and do not change.

use vstd::prelude::*;
use crate::model::{distinct_entries, named_entries, Entry};
use crate::tag_spec::{entries_of, TagSpec};

verus! {

// Tags that the standard registry assigns.
pub const TAG_URI: u64 = 32;
pub const TAG_NAME_URI: &'static str = "url";

pub const TAG_UUID: u64 = 37;
pub const TAG_NAME_UUID: &'static str = "uuid";

// The envelope itself. A leaf was once written under 24, which belongs to a
// byte string that holds encoded CBOR; leaves are now written under 201, and
// 24 is still read.
pub const TAG_ENCODED_CBOR: u64 = 24;
pub const TAG_NAME_ENCODED_CBOR: &'static str = "encoded-cbor";

pub const TAG_ENVELOPE: u64 = 200;
pub const TAG_NAME_ENVELOPE: &'static str = "envelope";

pub const TAG_LEAF: u64 = 201;
pub const TAG_NAME_LEAF: &'static str = "leaf";

// Envelope extensions.
pub const TAG_KNOWN_VALUE: u64 = 40000;
pub const TAG_NAME_KNOWN_VALUE: &'static str = "known-value";

pub const TAG_DIGEST: u64 = 40001;
pub const TAG_NAME_DIGEST: &'static str = "digest";

pub const TAG_ENCRYPTED: u64 = 40002;
pub const TAG_NAME_ENCRYPTED: &'static str = "encrypted";

pub const TAG_COMPRESSED: u64 = 40003;
pub const TAG_NAME_COMPRESSED: &'static str = "compressed";

// Distributed function calls.
pub const TAG_REQUEST: u64 = 40004;
pub const TAG_NAME_REQUEST: &'static str = "request";

pub const TAG_RESPONSE: u64 = 40005;
pub const TAG_NAME_RESPONSE: &'static str = "response";

pub const TAG_FUNCTION: u64 = 40006;
pub const TAG_NAME_FUNCTION: &'static str = "function";

pub const TAG_PARAMETER: u64 = 40007;
pub const TAG_NAME_PARAMETER: &'static str = "parameter";

pub const TAG_PLACEHOLDER: u64 = 40008;
pub const TAG_NAME_PLACEHOLDER: &'static str = "placeholder";

pub const TAG_REPLACEMENT: u64 = 40009;
pub const TAG_NAME_REPLACEMENT: &'static str = "replacement";

// Keys, identifiers and what is made with them.
pub const TAG_X25519_PRIVATE_KEY: u64 = 40010;
pub const TAG_NAME_X25519_PRIVATE_KEY: &'static str = "agreement-private-key";

pub const TAG_X25519_PUBLIC_KEY: u64 = 40011;
pub const TAG_NAME_X25519_PUBLIC_KEY: &'static str = "agreement-public-key";

pub const TAG_ARID: u64 = 40012;
pub const TAG_NAME_ARID: &'static str = "arid";

pub const TAG_PRIVATE_KEYS: u64 = 40013;
pub const TAG_NAME_PRIVATE_KEYS: &'static str = "crypto-prvkeys";

pub const TAG_NONCE: u64 = 40014;
pub const TAG_NAME_NONCE: &'static str = "nonce";

pub const TAG_PASSWORD: u64 = 40015;
pub const TAG_NAME_PASSWORD: &'static str = "password";

pub const TAG_PRIVATE_KEY_BASE: u64 = 40016;
pub const TAG_NAME_PRIVATE_KEY_BASE: &'static str = "crypto-prvkey-base";

pub const TAG_PUBLIC_KEYS: u64 = 40017;
pub const TAG_NAME_PUBLIC_KEYS: &'static str = "crypto-pubkeys";

pub const TAG_SALT: u64 = 40018;
pub const TAG_NAME_SALT: &'static str = "salt";

pub const TAG_SEALED_MESSAGE: u64 = 40019;
pub const TAG_NAME_SEALED_MESSAGE: &'static str = "crypto-sealed";

pub const TAG_SIGNATURE: u64 = 40020;
pub const TAG_NAME_SIGNATURE: &'static str = "signature";

pub const TAG_SIGNING_PRIVATE_KEY: u64 = 40021;
pub const TAG_NAME_SIGNING_PRIVATE_KEY: &'static str = "signing-private-key";

pub const TAG_SIGNING_PUBLIC_KEY: u64 = 40022;
pub const TAG_NAME_SIGNING_PUBLIC_KEY: &'static str = "signing-public-key";

pub const TAG_SYMMETRIC_KEY: u64 = 40023;
pub const TAG_NAME_SYMMETRIC_KEY: &'static str = "crypto-key";

pub const TAG_XID: u64 = 40024;
pub const TAG_NAME_XID: &'static str = "xid";

pub const TAG_REFERENCE: u64 = 40025;
pub const TAG_NAME_REFERENCE: &'static str = "reference";

pub const TAG_EVENT: u64 = 40026;
pub const TAG_NAME_EVENT: &'static str = "event";

pub const TAG_ENCRYPTED_KEY: u64 = 40027;
pub const TAG_NAME_ENCRYPTED_KEY: &'static str = "encrypted-key";

// Post-quantum keys and signatures.
pub const TAG_MLKEM_PRIVATE_KEY: u64 = 40100;
pub const TAG_NAME_MLKEM_PRIVATE_KEY: &'static str = "mlkem-private-key";

pub const TAG_MLKEM_PUBLIC_KEY: u64 = 40101;
pub const TAG_NAME_MLKEM_PUBLIC_KEY: &'static str = "mlkem-public-key";

pub const TAG_MLKEM_CIPHERTEXT: u64 = 40102;
pub const TAG_NAME_MLKEM_CIPHERTEXT: &'static str = "mlkem-ciphertext";

pub const TAG_MLDSA_PRIVATE_KEY: u64 = 40103;
pub const TAG_NAME_MLDSA_PRIVATE_KEY: &'static str = "mldsa-private-key";

pub const TAG_MLDSA_PUBLIC_KEY: u64 = 40104;
pub const TAG_NAME_MLDSA_PUBLIC_KEY: &'static str = "mldsa-public-key";

pub const TAG_MLDSA_SIGNATURE: u64 = 40105;
pub const TAG_NAME_MLDSA_SIGNATURE: &'static str = "mldsa-signature";

// Wallet data.
pub const TAG_SEED: u64 = 40300;
pub const TAG_NAME_SEED: &'static str = "seed";

pub const TAG_HDKEY: u64 = 40303;
pub const TAG_NAME_HDKEY: &'static str = "hdkey";

pub const TAG_DERIVATION_PATH: u64 = 40304;
pub const TAG_NAME_DERIVATION_PATH: &'static str = "keypath";

pub const TAG_USE_INFO: u64 = 40305;
pub const TAG_NAME_USE_INFO: &'static str = "coin-info";

pub const TAG_EC_KEY: u64 = 40306;
pub const TAG_NAME_EC_KEY: &'static str = "eckey";

pub const TAG_ADDRESS: u64 = 40307;
pub const TAG_NAME_ADDRESS: &'static str = "address";

pub const TAG_OUTPUT_DESCRIPTOR: u64 = 40308;
pub const TAG_NAME_OUTPUT_DESCRIPTOR: &'static str = "output-descriptor";

pub const TAG_SSKR_SHARE: u64 = 40309;
pub const TAG_NAME_SSKR_SHARE: &'static str = "sskr";

pub const TAG_PSBT: u64 = 40310;
pub const TAG_NAME_PSBT: &'static str = "psbt";

pub const TAG_ACCOUNT_DESCRIPTOR: u64 = 40311;
pub const TAG_NAME_ACCOUNT_DESCRIPTOR: &'static str = "account-descriptor";

// SSH keys, signatures and certificates, as text.
pub const TAG_SSH_TEXT_PRIVATE_KEY: u64 = 40800;
pub const TAG_NAME_SSH_TEXT_PRIVATE_KEY: &'static str = "ssh-private";

pub const TAG_SSH_TEXT_PUBLIC_KEY: u64 = 40801;
pub const TAG_NAME_SSH_TEXT_PUBLIC_KEY: &'static str = "ssh-public";

pub const TAG_SSH_TEXT_SIGNATURE: u64 = 40802;
pub const TAG_NAME_SSH_TEXT_SIGNATURE: &'static str = "ssh-signature";

pub const TAG_SSH_TEXT_CERTIFICATE: u64 = 40803;
pub const TAG_NAME_SSH_TEXT_CERTIFICATE: &'static str = "ssh-certificate";

// Provenance marks.
pub const TAG_PROVENANCE_MARK: u64 = 1347571542;
pub const TAG_NAME_PROVENANCE_MARK: &'static str = "provenance";

// Superseded numbers. Each was taken from a range that is kept for tags with
// a published specification, and has a successor at 40000 or above. They
// stay registered, each under a name of its own, so that old data still
// decodes; nothing new is written with them.
pub const TAG_SEED_V1: u64 = 300;
pub const TAG_NAME_SEED_V1: &'static str = "crypto-seed";

pub const TAG_EC_KEY_V1: u64 = 306;
pub const TAG_NAME_EC_KEY_V1: &'static str = "crypto-eckey";

pub const TAG_SSKR_SHARE_V1: u64 = 309;
pub const TAG_NAME_SSKR_SHARE_V1: &'static str = "crypto-sskr";

pub const TAG_HDKEY_V1: u64 = 303;
pub const TAG_NAME_HDKEY_V1: &'static str = "crypto-hdkey";

pub const TAG_DERIVATION_PATH_V1: u64 = 304;
pub const TAG_NAME_DERIVATION_PATH_V1: &'static str = "crypto-keypath";

pub const TAG_USE_INFO_V1: u64 = 305;
pub const TAG_NAME_USE_INFO_V1: &'static str = "crypto-coin-info";

pub const TAG_OUTPUT_DESCRIPTOR_V1: u64 = 307;
pub const TAG_NAME_OUTPUT_DESCRIPTOR_V1: &'static str = "crypto-output";

pub const TAG_PSBT_V1: u64 = 310;
pub const TAG_NAME_PSBT_V1: &'static str = "crypto-psbt";

pub const TAG_ACCOUNT_V1: u64 = 311;
pub const TAG_NAME_ACCOUNT_V1: &'static str = "crypto-account";

// Parts of an output descriptor in its superseded form.
pub const TAG_OUTPUT_SCRIPT_HASH: u64 = 400;
pub const TAG_NAME_OUTPUT_SCRIPT_HASH: &'static str = "output-script-hash";

pub const TAG_OUTPUT_WITNESS_SCRIPT_HASH: u64 = 401;
pub const TAG_NAME_OUTPUT_WITNESS_SCRIPT_HASH: &'static str = "output-witness-script-hash";

pub const TAG_OUTPUT_PUBLIC_KEY: u64 = 402;
pub const TAG_NAME_OUTPUT_PUBLIC_KEY: &'static str = "output-public-key";

pub const TAG_OUTPUT_PUBLIC_KEY_HASH: u64 = 403;
pub const TAG_NAME_OUTPUT_PUBLIC_KEY_HASH: &'static str = "output-public-key-hash";

pub const TAG_OUTPUT_WITNESS_PUBLIC_KEY_HASH: u64 = 404;
pub const TAG_NAME_OUTPUT_WITNESS_PUBLIC_KEY_HASH: &'static str = "output-witness-public-key-hash";

pub const TAG_OUTPUT_COMBO: u64 = 405;
pub const TAG_NAME_OUTPUT_COMBO: &'static str = "output-combo";

pub const TAG_OUTPUT_MULTISIG: u64 = 406;
pub const TAG_NAME_OUTPUT_MULTISIG: &'static str = "output-multisig";

pub const TAG_OUTPUT_SORTED_MULTISIG: u64 = 407;
pub const TAG_NAME_OUTPUT_SORTED_MULTISIG: &'static str = "output-sorted-multisig";

pub const TAG_OUTPUT_RAW_SCRIPT: u64 = 408;
pub const TAG_NAME_OUTPUT_RAW_SCRIPT: &'static str = "output-raw-script";

pub const TAG_OUTPUT_TAPROOT: u64 = 409;
pub const TAG_NAME_OUTPUT_TAPROOT: &'static str = "output-taproot";

pub const TAG_OUTPUT_COSIGNER: u64 = 410;
pub const TAG_NAME_OUTPUT_COSIGNER: &'static str = "output-cosigner";

/// How many tags the catalog has.
pub const CATALOG_LEN: usize = 74;

/// The number and the name of the catalog's tag at place `i`.
pub open spec fn catalog_entry(i: int) -> Entry {
    if i == 0 {
        (TAG_URI, TAG_NAME_URI@)
    } else if i == 1 {
        (TAG_UUID, TAG_NAME_UUID@)
    } else if i == 2 {
        (TAG_ENCODED_CBOR, TAG_NAME_ENCODED_CBOR@)
    } else if i == 3 {
        (TAG_ENVELOPE, TAG_NAME_ENVELOPE@)
    } else if i == 4 {
        (TAG_LEAF, TAG_NAME_LEAF@)
    } else if i == 5 {
        (TAG_KNOWN_VALUE, TAG_NAME_KNOWN_VALUE@)
    } else if i == 6 {
        (TAG_DIGEST, TAG_NAME_DIGEST@)
    } else if i == 7 {
        (TAG_ENCRYPTED, TAG_NAME_ENCRYPTED@)
    } else if i == 8 {
        (TAG_COMPRESSED, TAG_NAME_COMPRESSED@)
    } else if i == 9 {
        (TAG_REQUEST, TAG_NAME_REQUEST@)
    } else if i == 10 {
        (TAG_RESPONSE, TAG_NAME_RESPONSE@)
    } else if i == 11 {
        (TAG_FUNCTION, TAG_NAME_FUNCTION@)
    } else if i == 12 {
        (TAG_PARAMETER, TAG_NAME_PARAMETER@)
    } else if i == 13 {
        (TAG_PLACEHOLDER, TAG_NAME_PLACEHOLDER@)
    } else if i == 14 {
        (TAG_REPLACEMENT, TAG_NAME_REPLACEMENT@)
    } else if i == 15 {
        (TAG_EVENT, TAG_NAME_EVENT@)
    } else if i == 16 {
        (TAG_SEED_V1, TAG_NAME_SEED_V1@)
    } else if i == 17 {
        (TAG_EC_KEY_V1, TAG_NAME_EC_KEY_V1@)
    } else if i == 18 {
        (TAG_SSKR_SHARE_V1, TAG_NAME_SSKR_SHARE_V1@)
    } else if i == 19 {
        (TAG_SEED, TAG_NAME_SEED@)
    } else if i == 20 {
        (TAG_EC_KEY, TAG_NAME_EC_KEY@)
    } else if i == 21 {
        (TAG_SSKR_SHARE, TAG_NAME_SSKR_SHARE@)
    } else if i == 22 {
        (TAG_X25519_PRIVATE_KEY, TAG_NAME_X25519_PRIVATE_KEY@)
    } else if i == 23 {
        (TAG_X25519_PUBLIC_KEY, TAG_NAME_X25519_PUBLIC_KEY@)
    } else if i == 24 {
        (TAG_ARID, TAG_NAME_ARID@)
    } else if i == 25 {
        (TAG_PRIVATE_KEYS, TAG_NAME_PRIVATE_KEYS@)
    } else if i == 26 {
        (TAG_NONCE, TAG_NAME_NONCE@)
    } else if i == 27 {
        (TAG_PASSWORD, TAG_NAME_PASSWORD@)
    } else if i == 28 {
        (TAG_PRIVATE_KEY_BASE, TAG_NAME_PRIVATE_KEY_BASE@)
    } else if i == 29 {
        (TAG_PUBLIC_KEYS, TAG_NAME_PUBLIC_KEYS@)
    } else if i == 30 {
        (TAG_SALT, TAG_NAME_SALT@)
    } else if i == 31 {
        (TAG_SEALED_MESSAGE, TAG_NAME_SEALED_MESSAGE@)
    } else if i == 32 {
        (TAG_SIGNATURE, TAG_NAME_SIGNATURE@)
    } else if i == 33 {
        (TAG_SIGNING_PRIVATE_KEY, TAG_NAME_SIGNING_PRIVATE_KEY@)
    } else if i == 34 {
        (TAG_SIGNING_PUBLIC_KEY, TAG_NAME_SIGNING_PUBLIC_KEY@)
    } else if i == 35 {
        (TAG_SYMMETRIC_KEY, TAG_NAME_SYMMETRIC_KEY@)
    } else if i == 36 {
        (TAG_XID, TAG_NAME_XID@)
    } else if i == 37 {
        (TAG_REFERENCE, TAG_NAME_REFERENCE@)
    } else if i == 38 {
        (TAG_ENCRYPTED_KEY, TAG_NAME_ENCRYPTED_KEY@)
    } else if i == 39 {
        (TAG_MLKEM_PRIVATE_KEY, TAG_NAME_MLKEM_PRIVATE_KEY@)
    } else if i == 40 {
        (TAG_MLKEM_PUBLIC_KEY, TAG_NAME_MLKEM_PUBLIC_KEY@)
    } else if i == 41 {
        (TAG_MLKEM_CIPHERTEXT, TAG_NAME_MLKEM_CIPHERTEXT@)
    } else if i == 42 {
        (TAG_MLDSA_PRIVATE_KEY, TAG_NAME_MLDSA_PRIVATE_KEY@)
    } else if i == 43 {
        (TAG_MLDSA_PUBLIC_KEY, TAG_NAME_MLDSA_PUBLIC_KEY@)
    } else if i == 44 {
        (TAG_MLDSA_SIGNATURE, TAG_NAME_MLDSA_SIGNATURE@)
    } else if i == 45 {
        (TAG_HDKEY_V1, TAG_NAME_HDKEY_V1@)
    } else if i == 46 {
        (TAG_DERIVATION_PATH_V1, TAG_NAME_DERIVATION_PATH_V1@)
    } else if i == 47 {
        (TAG_USE_INFO_V1, TAG_NAME_USE_INFO_V1@)
    } else if i == 48 {
        (TAG_OUTPUT_DESCRIPTOR_V1, TAG_NAME_OUTPUT_DESCRIPTOR_V1@)
    } else if i == 49 {
        (TAG_PSBT_V1, TAG_NAME_PSBT_V1@)
    } else if i == 50 {
        (TAG_ACCOUNT_V1, TAG_NAME_ACCOUNT_V1@)
    } else if i == 51 {
        (TAG_HDKEY, TAG_NAME_HDKEY@)
    } else if i == 52 {
        (TAG_DERIVATION_PATH, TAG_NAME_DERIVATION_PATH@)
    } else if i == 53 {
        (TAG_USE_INFO, TAG_NAME_USE_INFO@)
    } else if i == 54 {
        (TAG_ADDRESS, TAG_NAME_ADDRESS@)
    } else if i == 55 {
        (TAG_OUTPUT_DESCRIPTOR, TAG_NAME_OUTPUT_DESCRIPTOR@)
    } else if i == 56 {
        (TAG_PSBT, TAG_NAME_PSBT@)
    } else if i == 57 {
        (TAG_ACCOUNT_DESCRIPTOR, TAG_NAME_ACCOUNT_DESCRIPTOR@)
    } else if i == 58 {
        (TAG_SSH_TEXT_PRIVATE_KEY, TAG_NAME_SSH_TEXT_PRIVATE_KEY@)
    } else if i == 59 {
        (TAG_SSH_TEXT_PUBLIC_KEY, TAG_NAME_SSH_TEXT_PUBLIC_KEY@)
    } else if i == 60 {
        (TAG_SSH_TEXT_SIGNATURE, TAG_NAME_SSH_TEXT_SIGNATURE@)
    } else if i == 61 {
        (TAG_SSH_TEXT_CERTIFICATE, TAG_NAME_SSH_TEXT_CERTIFICATE@)
    } else if i == 62 {
        (TAG_OUTPUT_SCRIPT_HASH, TAG_NAME_OUTPUT_SCRIPT_HASH@)
    } else if i == 63 {
        (TAG_OUTPUT_WITNESS_SCRIPT_HASH, TAG_NAME_OUTPUT_WITNESS_SCRIPT_HASH@)
    } else if i == 64 {
        (TAG_OUTPUT_PUBLIC_KEY, TAG_NAME_OUTPUT_PUBLIC_KEY@)
    } else if i == 65 {
        (TAG_OUTPUT_PUBLIC_KEY_HASH, TAG_NAME_OUTPUT_PUBLIC_KEY_HASH@)
    } else if i == 66 {
        (TAG_OUTPUT_WITNESS_PUBLIC_KEY_HASH, TAG_NAME_OUTPUT_WITNESS_PUBLIC_KEY_HASH@)
    } else if i == 67 {
        (TAG_OUTPUT_COMBO, TAG_NAME_OUTPUT_COMBO@)
    } else if i == 68 {
        (TAG_OUTPUT_MULTISIG, TAG_NAME_OUTPUT_MULTISIG@)
    } else if i == 69 {
        (TAG_OUTPUT_SORTED_MULTISIG, TAG_NAME_OUTPUT_SORTED_MULTISIG@)
    } else if i == 70 {
        (TAG_OUTPUT_RAW_SCRIPT, TAG_NAME_OUTPUT_RAW_SCRIPT@)
    } else if i == 71 {
        (TAG_OUTPUT_TAPROOT, TAG_NAME_OUTPUT_TAPROOT@)
    } else if i == 72 {
        (TAG_OUTPUT_COSIGNER, TAG_NAME_OUTPUT_COSIGNER@)
    } else {
        (TAG_PROVENANCE_MARK, TAG_NAME_PROVENANCE_MARK@)
    }
}

/// The catalog: every tag that this format defines, in the order in which
/// the tags are registered.
pub open spec fn catalog_entries() -> Seq<Entry> {
    Seq::new(CATALOG_LEN as nat, |i: int| catalog_entry(i))
}

/// The tags that the codec defines for itself and registers first: the date.
pub open spec fn codec_entries() -> Seq<Entry> {
    seq![(1u64, "date"@)]
}

/// All that a registration puts into a store: the codec's tags, then the
/// catalog.
pub open spec fn registration_set() -> Seq<Entry> {
    codec_entries() + catalog_entries()
}

/// The number and the name of the catalog's tag at place `i`.
fn catalog_tag(i: usize) -> (tag: (u64, &'static str))
    requires
        i < CATALOG_LEN,
    ensures
        tag.0 == catalog_entry(i as int).0,
        tag.1@ == catalog_entry(i as int).1,
{
    match i {
        0 => (TAG_URI, TAG_NAME_URI),
        1 => (TAG_UUID, TAG_NAME_UUID),
        2 => (TAG_ENCODED_CBOR, TAG_NAME_ENCODED_CBOR),
        3 => (TAG_ENVELOPE, TAG_NAME_ENVELOPE),
        4 => (TAG_LEAF, TAG_NAME_LEAF),
        5 => (TAG_KNOWN_VALUE, TAG_NAME_KNOWN_VALUE),
        6 => (TAG_DIGEST, TAG_NAME_DIGEST),
        7 => (TAG_ENCRYPTED, TAG_NAME_ENCRYPTED),
        8 => (TAG_COMPRESSED, TAG_NAME_COMPRESSED),
        9 => (TAG_REQUEST, TAG_NAME_REQUEST),
        10 => (TAG_RESPONSE, TAG_NAME_RESPONSE),
        11 => (TAG_FUNCTION, TAG_NAME_FUNCTION),
        12 => (TAG_PARAMETER, TAG_NAME_PARAMETER),
        13 => (TAG_PLACEHOLDER, TAG_NAME_PLACEHOLDER),
        14 => (TAG_REPLACEMENT, TAG_NAME_REPLACEMENT),
        15 => (TAG_EVENT, TAG_NAME_EVENT),
        16 => (TAG_SEED_V1, TAG_NAME_SEED_V1),
        17 => (TAG_EC_KEY_V1, TAG_NAME_EC_KEY_V1),
        18 => (TAG_SSKR_SHARE_V1, TAG_NAME_SSKR_SHARE_V1),
        19 => (TAG_SEED, TAG_NAME_SEED),
        20 => (TAG_EC_KEY, TAG_NAME_EC_KEY),
        21 => (TAG_SSKR_SHARE, TAG_NAME_SSKR_SHARE),
        22 => (TAG_X25519_PRIVATE_KEY, TAG_NAME_X25519_PRIVATE_KEY),
        23 => (TAG_X25519_PUBLIC_KEY, TAG_NAME_X25519_PUBLIC_KEY),
        24 => (TAG_ARID, TAG_NAME_ARID),
        25 => (TAG_PRIVATE_KEYS, TAG_NAME_PRIVATE_KEYS),
        26 => (TAG_NONCE, TAG_NAME_NONCE),
        27 => (TAG_PASSWORD, TAG_NAME_PASSWORD),
        28 => (TAG_PRIVATE_KEY_BASE, TAG_NAME_PRIVATE_KEY_BASE),
        29 => (TAG_PUBLIC_KEYS, TAG_NAME_PUBLIC_KEYS),
        30 => (TAG_SALT, TAG_NAME_SALT),
        31 => (TAG_SEALED_MESSAGE, TAG_NAME_SEALED_MESSAGE),
        32 => (TAG_SIGNATURE, TAG_NAME_SIGNATURE),
        33 => (TAG_SIGNING_PRIVATE_KEY, TAG_NAME_SIGNING_PRIVATE_KEY),
        34 => (TAG_SIGNING_PUBLIC_KEY, TAG_NAME_SIGNING_PUBLIC_KEY),
        35 => (TAG_SYMMETRIC_KEY, TAG_NAME_SYMMETRIC_KEY),
        36 => (TAG_XID, TAG_NAME_XID),
        37 => (TAG_REFERENCE, TAG_NAME_REFERENCE),
        38 => (TAG_ENCRYPTED_KEY, TAG_NAME_ENCRYPTED_KEY),
        39 => (TAG_MLKEM_PRIVATE_KEY, TAG_NAME_MLKEM_PRIVATE_KEY),
        40 => (TAG_MLKEM_PUBLIC_KEY, TAG_NAME_MLKEM_PUBLIC_KEY),
        41 => (TAG_MLKEM_CIPHERTEXT, TAG_NAME_MLKEM_CIPHERTEXT),
        42 => (TAG_MLDSA_PRIVATE_KEY, TAG_NAME_MLDSA_PRIVATE_KEY),
        43 => (TAG_MLDSA_PUBLIC_KEY, TAG_NAME_MLDSA_PUBLIC_KEY),
        44 => (TAG_MLDSA_SIGNATURE, TAG_NAME_MLDSA_SIGNATURE),
        45 => (TAG_HDKEY_V1, TAG_NAME_HDKEY_V1),
        46 => (TAG_DERIVATION_PATH_V1, TAG_NAME_DERIVATION_PATH_V1),
        47 => (TAG_USE_INFO_V1, TAG_NAME_USE_INFO_V1),
        48 => (TAG_OUTPUT_DESCRIPTOR_V1, TAG_NAME_OUTPUT_DESCRIPTOR_V1),
        49 => (TAG_PSBT_V1, TAG_NAME_PSBT_V1),
        50 => (TAG_ACCOUNT_V1, TAG_NAME_ACCOUNT_V1),
        51 => (TAG_HDKEY, TAG_NAME_HDKEY),
        52 => (TAG_DERIVATION_PATH, TAG_NAME_DERIVATION_PATH),
        53 => (TAG_USE_INFO, TAG_NAME_USE_INFO),
        54 => (TAG_ADDRESS, TAG_NAME_ADDRESS),
        55 => (TAG_OUTPUT_DESCRIPTOR, TAG_NAME_OUTPUT_DESCRIPTOR),
        56 => (TAG_PSBT, TAG_NAME_PSBT),
        57 => (TAG_ACCOUNT_DESCRIPTOR, TAG_NAME_ACCOUNT_DESCRIPTOR),
        58 => (TAG_SSH_TEXT_PRIVATE_KEY, TAG_NAME_SSH_TEXT_PRIVATE_KEY),
        59 => (TAG_SSH_TEXT_PUBLIC_KEY, TAG_NAME_SSH_TEXT_PUBLIC_KEY),
        60 => (TAG_SSH_TEXT_SIGNATURE, TAG_NAME_SSH_TEXT_SIGNATURE),
        61 => (TAG_SSH_TEXT_CERTIFICATE, TAG_NAME_SSH_TEXT_CERTIFICATE),
        62 => (TAG_OUTPUT_SCRIPT_HASH, TAG_NAME_OUTPUT_SCRIPT_HASH),
        63 => (TAG_OUTPUT_WITNESS_SCRIPT_HASH, TAG_NAME_OUTPUT_WITNESS_SCRIPT_HASH),
        64 => (TAG_OUTPUT_PUBLIC_KEY, TAG_NAME_OUTPUT_PUBLIC_KEY),
        65 => (TAG_OUTPUT_PUBLIC_KEY_HASH, TAG_NAME_OUTPUT_PUBLIC_KEY_HASH),
        66 => (TAG_OUTPUT_WITNESS_PUBLIC_KEY_HASH, TAG_NAME_OUTPUT_WITNESS_PUBLIC_KEY_HASH),
        67 => (TAG_OUTPUT_COMBO, TAG_NAME_OUTPUT_COMBO),
        68 => (TAG_OUTPUT_MULTISIG, TAG_NAME_OUTPUT_MULTISIG),
        69 => (TAG_OUTPUT_SORTED_MULTISIG, TAG_NAME_OUTPUT_SORTED_MULTISIG),
        70 => (TAG_OUTPUT_RAW_SCRIPT, TAG_NAME_OUTPUT_RAW_SCRIPT),
        71 => (TAG_OUTPUT_TAPROOT, TAG_NAME_OUTPUT_TAPROOT),
        72 => (TAG_OUTPUT_COSIGNER, TAG_NAME_OUTPUT_COSIGNER),
        _ => (TAG_PROVENANCE_MARK, TAG_NAME_PROVENANCE_MARK),
    }
}

/// The catalog as tags, in order.
pub fn catalog() -> (specs: Vec<TagSpec>)
    ensures
        entries_of(specs@) == catalog_entries(),
{
    let mut specs: Vec<TagSpec> = Vec::new();
    let mut i: usize = 0;
    while i < CATALOG_LEN
        invariant
            i <= CATALOG_LEN,
            specs@.len() == i,
            entries_of(specs@) == catalog_entries().take(i as int),
        decreases CATALOG_LEN - i,
    {
        let (number, name) = catalog_tag(i);
        proof {
            lemma_catalog_spelling();
        }
        let ghost before = specs@;
        specs.push(TagSpec::from_parts(number, name.to_owned()));
        assert(entries_of(specs@) =~= catalog_entries().take(i + 1)) by {
            assert forall|j: int| 0 <= j < i implies entries_of(specs@)[j]
                == catalog_entries()[j] by {
                assert(entries_of(before)[j] == catalog_entries().take(i as int)[j]);
            }
        }
        i += 1;
    }
    specs
}

/// The registration set as tags, in order.
pub fn registration_tags() -> (specs: Vec<TagSpec>)
    ensures
        entries_of(specs@) == registration_set(),
{
    proof {
        lemma_catalog_spelling();
    }
    let mut specs: Vec<TagSpec> = Vec::new();
    specs.push(TagSpec::from_parts(1, "date".to_owned()));
    let mut rest = catalog();
    specs.append(&mut rest);
    specs
}

// Verus learns what a string literal holds only where its length or one of its
// characters is asked for. `spelled_alike` asks for all of them, so that two
// literals that differ are seen to differ.

/// `a` and `b` hold the same characters at every place below `n`.
spec fn agree_below(a: Seq<char>, b: Seq<char>, n: nat) -> bool
    decreases n,
{
    n == 0 || (a[n - 1] == b[n - 1] && agree_below(a, b, (n - 1) as nat))
}

/// `a` and `b` are as long as each other and hold the same characters.
spec fn spelled_alike(a: Seq<char>, b: Seq<char>) -> bool {
    a.len() == b.len() && agree_below(a, b, a.len())
}

/// Every name is spelled like itself.
proof fn lemma_agree_with_itself(a: Seq<char>, n: nat)
    ensures
        agree_below(a, a, n),
    decreases n,
{
    if n > 0 {
        lemma_agree_with_itself(a, (n - 1) as nat);
    }
}

/// The names of the registration set, letter by letter: none is empty, and
/// no two of them are spelled alike.
proof fn lemma_catalog_spelling()
    ensures
        forall|i: int| 0 <= i < CATALOG_LEN ==> (#[trigger] catalog_entry(i)).1.len() > 0,
        forall|i: int, j: int|
            0 <= i < j < CATALOG_LEN ==> !spelled_alike(
                (#[trigger] catalog_entry(i)).1,
                (#[trigger] catalog_entry(j)).1,
            ),
        "date"@.len() > 0,
        forall|i: int|
            0 <= i < CATALOG_LEN ==> !spelled_alike("date"@, (#[trigger] catalog_entry(i)).1),
{
    // The longest name has 30 characters.
    reveal_with_fuel(agree_below, 31);
    reveal_strlit("date");
    reveal_strlit("url");
    reveal_strlit("uuid");
    reveal_strlit("encoded-cbor");
    reveal_strlit("envelope");
    reveal_strlit("leaf");
    reveal_strlit("known-value");
    reveal_strlit("digest");
    reveal_strlit("encrypted");
    reveal_strlit("compressed");
    reveal_strlit("request");
    reveal_strlit("response");
    reveal_strlit("function");
    reveal_strlit("parameter");
    reveal_strlit("placeholder");
    reveal_strlit("replacement");
    reveal_strlit("agreement-private-key");
    reveal_strlit("agreement-public-key");
    reveal_strlit("arid");
    reveal_strlit("crypto-prvkeys");
    reveal_strlit("nonce");
    reveal_strlit("password");
    reveal_strlit("crypto-prvkey-base");
    reveal_strlit("crypto-pubkeys");
    reveal_strlit("salt");
    reveal_strlit("crypto-sealed");
    reveal_strlit("signature");
    reveal_strlit("signing-private-key");
    reveal_strlit("signing-public-key");
    reveal_strlit("crypto-key");
    reveal_strlit("xid");
    reveal_strlit("reference");
    reveal_strlit("event");
    reveal_strlit("encrypted-key");
    reveal_strlit("mlkem-private-key");
    reveal_strlit("mlkem-public-key");
    reveal_strlit("mlkem-ciphertext");
    reveal_strlit("mldsa-private-key");
    reveal_strlit("mldsa-public-key");
    reveal_strlit("mldsa-signature");
    reveal_strlit("seed");
    reveal_strlit("hdkey");
    reveal_strlit("keypath");
    reveal_strlit("coin-info");
    reveal_strlit("eckey");
    reveal_strlit("address");
    reveal_strlit("output-descriptor");
    reveal_strlit("sskr");
    reveal_strlit("psbt");
    reveal_strlit("account-descriptor");
    reveal_strlit("ssh-private");
    reveal_strlit("ssh-public");
    reveal_strlit("ssh-signature");
    reveal_strlit("ssh-certificate");
    reveal_strlit("provenance");
    reveal_strlit("crypto-seed");
    reveal_strlit("crypto-eckey");
    reveal_strlit("crypto-sskr");
    reveal_strlit("crypto-hdkey");
    reveal_strlit("crypto-keypath");
    reveal_strlit("crypto-coin-info");
    reveal_strlit("crypto-output");
    reveal_strlit("crypto-psbt");
    reveal_strlit("crypto-account");
    reveal_strlit("output-script-hash");
    reveal_strlit("output-witness-script-hash");
    reveal_strlit("output-public-key");
    reveal_strlit("output-public-key-hash");
    reveal_strlit("output-witness-public-key-hash");
    reveal_strlit("output-combo");
    reveal_strlit("output-multisig");
    reveal_strlit("output-sorted-multisig");
    reveal_strlit("output-raw-script");
    reveal_strlit("output-taproot");
    reveal_strlit("output-cosigner");
}

/// No two tags of the registration set share a number, no two share a name,
/// and no name is empty.
pub proof fn lemma_registration_set_distinct()
    ensures
        distinct_entries(registration_set()),
        named_entries(registration_set()),
{
    let set = registration_set();
    lemma_catalog_spelling();
    assert forall|i: int| 0 < i < set.len() implies set[i] == catalog_entry(i - 1) by {}
    assert forall|i: int, j: int| 0 <= i < j < set.len() implies (#[trigger] set[i]).0
        != (#[trigger] set[j]).0 && set[i].1 != set[j].1 by {
        lemma_agree_with_itself(set[i].1, set[i].1.len());
    }
}

/// Every number of the catalog lies in one of the four ranges that the
/// format draws on: 24 to 255, which take two bytes on the wire; 256 to 39999,
/// where the superseded numbers are; 40000 to 40999; and 2^20 and above.
pub proof fn lemma_catalog_ranges(i: int)
    requires
        0 <= i < CATALOG_LEN,
    ensures
        ({
            let number = catalog_entry(i).0;
            24 <= number <= 255 || 256 <= number <= 39999 || 40000 <= number <= 40999
                || 0x10_0000 <= number
        }),
{
}

} // verus!
