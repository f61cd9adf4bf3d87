//! The tags of the Gordian Envelope format and of the types it carries: their
//! numbers, their names, and their registration in a `dcbor::TagsStore`.
//!
//! A tag is a number in front of a CBOR item that says how to read the item.
//! The codec prints a tagged item by name where it knows the tag, so the tags
//! are registered once, before the first item is read or printed:
//! `register_tags_in` puts them into a store, `try_register_tags_in` first
//! tests that the store agrees with them, and `TagTable` is a store that
//! refuses any number or name it already holds.

pub mod catalog;
pub mod error;
pub mod model;
pub mod registration;
pub mod store;
pub mod table;
pub mod tag_spec;

pub use dcbor::TAG_DATE;

pub use crate::catalog::{
    catalog, registration_tags, CATALOG_LEN, TAG_ACCOUNT_DESCRIPTOR, TAG_ACCOUNT_V1,
    TAG_ADDRESS, TAG_ARID, TAG_COMPRESSED, TAG_DERIVATION_PATH, TAG_DERIVATION_PATH_V1,
    TAG_DIGEST, TAG_EC_KEY, TAG_EC_KEY_V1, TAG_ENCODED_CBOR, TAG_ENCRYPTED, TAG_ENCRYPTED_KEY,
    TAG_ENVELOPE, TAG_EVENT, TAG_FUNCTION, TAG_HDKEY, TAG_HDKEY_V1, TAG_KNOWN_VALUE, TAG_LEAF,
    TAG_MLDSA_PRIVATE_KEY, TAG_MLDSA_PUBLIC_KEY, TAG_MLDSA_SIGNATURE, TAG_MLKEM_CIPHERTEXT,
    TAG_MLKEM_PRIVATE_KEY, TAG_MLKEM_PUBLIC_KEY, TAG_NAME_ACCOUNT_DESCRIPTOR,
    TAG_NAME_ACCOUNT_V1, TAG_NAME_ADDRESS, TAG_NAME_ARID, TAG_NAME_COMPRESSED,
    TAG_NAME_DERIVATION_PATH, TAG_NAME_DERIVATION_PATH_V1, TAG_NAME_DIGEST, TAG_NAME_EC_KEY,
    TAG_NAME_EC_KEY_V1, TAG_NAME_ENCODED_CBOR, TAG_NAME_ENCRYPTED, TAG_NAME_ENCRYPTED_KEY,
    TAG_NAME_ENVELOPE, TAG_NAME_EVENT, TAG_NAME_FUNCTION, TAG_NAME_HDKEY, TAG_NAME_HDKEY_V1,
    TAG_NAME_KNOWN_VALUE, TAG_NAME_LEAF, TAG_NAME_MLDSA_PRIVATE_KEY, TAG_NAME_MLDSA_PUBLIC_KEY,
    TAG_NAME_MLDSA_SIGNATURE, TAG_NAME_MLKEM_CIPHERTEXT, TAG_NAME_MLKEM_PRIVATE_KEY,
    TAG_NAME_MLKEM_PUBLIC_KEY, TAG_NAME_NONCE, TAG_NAME_OUTPUT_COMBO, TAG_NAME_OUTPUT_COSIGNER,
    TAG_NAME_OUTPUT_DESCRIPTOR, TAG_NAME_OUTPUT_DESCRIPTOR_V1, TAG_NAME_OUTPUT_MULTISIG,
    TAG_NAME_OUTPUT_PUBLIC_KEY, TAG_NAME_OUTPUT_PUBLIC_KEY_HASH, TAG_NAME_OUTPUT_RAW_SCRIPT,
    TAG_NAME_OUTPUT_SCRIPT_HASH, TAG_NAME_OUTPUT_SORTED_MULTISIG, TAG_NAME_OUTPUT_TAPROOT,
    TAG_NAME_OUTPUT_WITNESS_PUBLIC_KEY_HASH, TAG_NAME_OUTPUT_WITNESS_SCRIPT_HASH,
    TAG_NAME_PARAMETER, TAG_NAME_PASSWORD, TAG_NAME_PLACEHOLDER, TAG_NAME_PRIVATE_KEYS,
    TAG_NAME_PRIVATE_KEY_BASE, TAG_NAME_PROVENANCE_MARK, TAG_NAME_PSBT, TAG_NAME_PSBT_V1,
    TAG_NAME_PUBLIC_KEYS, TAG_NAME_REFERENCE, TAG_NAME_REPLACEMENT, TAG_NAME_REQUEST,
    TAG_NAME_RESPONSE, TAG_NAME_SALT, TAG_NAME_SEALED_MESSAGE, TAG_NAME_SEED, TAG_NAME_SEED_V1,
    TAG_NAME_SIGNATURE, TAG_NAME_SIGNING_PRIVATE_KEY, TAG_NAME_SIGNING_PUBLIC_KEY,
    TAG_NAME_SSH_TEXT_CERTIFICATE, TAG_NAME_SSH_TEXT_PRIVATE_KEY, TAG_NAME_SSH_TEXT_PUBLIC_KEY,
    TAG_NAME_SSH_TEXT_SIGNATURE, TAG_NAME_SSKR_SHARE, TAG_NAME_SSKR_SHARE_V1,
    TAG_NAME_SYMMETRIC_KEY, TAG_NAME_URI, TAG_NAME_USE_INFO, TAG_NAME_USE_INFO_V1,
    TAG_NAME_UUID, TAG_NAME_X25519_PRIVATE_KEY, TAG_NAME_X25519_PUBLIC_KEY, TAG_NAME_XID,
    TAG_NONCE, TAG_OUTPUT_COMBO, TAG_OUTPUT_COSIGNER, TAG_OUTPUT_DESCRIPTOR,
    TAG_OUTPUT_DESCRIPTOR_V1, TAG_OUTPUT_MULTISIG, TAG_OUTPUT_PUBLIC_KEY,
    TAG_OUTPUT_PUBLIC_KEY_HASH, TAG_OUTPUT_RAW_SCRIPT, TAG_OUTPUT_SCRIPT_HASH,
    TAG_OUTPUT_SORTED_MULTISIG, TAG_OUTPUT_TAPROOT, TAG_OUTPUT_WITNESS_PUBLIC_KEY_HASH,
    TAG_OUTPUT_WITNESS_SCRIPT_HASH, TAG_PARAMETER, TAG_PASSWORD, TAG_PLACEHOLDER,
    TAG_PRIVATE_KEYS, TAG_PRIVATE_KEY_BASE, TAG_PROVENANCE_MARK, TAG_PSBT, TAG_PSBT_V1,
    TAG_PUBLIC_KEYS, TAG_REFERENCE, TAG_REPLACEMENT, TAG_REQUEST, TAG_RESPONSE, TAG_SALT,
    TAG_SEALED_MESSAGE, TAG_SEED, TAG_SEED_V1, TAG_SIGNATURE, TAG_SIGNING_PRIVATE_KEY,
    TAG_SIGNING_PUBLIC_KEY, TAG_SSH_TEXT_CERTIFICATE, TAG_SSH_TEXT_PRIVATE_KEY,
    TAG_SSH_TEXT_PUBLIC_KEY, TAG_SSH_TEXT_SIGNATURE, TAG_SSKR_SHARE, TAG_SSKR_SHARE_V1,
    TAG_SYMMETRIC_KEY, TAG_URI, TAG_USE_INFO, TAG_USE_INFO_V1, TAG_UUID,
    TAG_X25519_PRIVATE_KEY, TAG_X25519_PUBLIC_KEY, TAG_XID,
};
pub use crate::error::TagError;
pub use crate::registration::{register_tags_in, try_register_tags_in};
pub use crate::table::TagTable;
pub use crate::tag_spec::TagSpec;
