//! The reasons for which a tag is refused.

use vstd::prelude::*;

verus! {

/// Why a tag was refused.
#[derive(Debug, Clone, Copy, PartialEq, Eq, Structural)]
pub enum TagError {
    /// The number is already taken.
    DuplicateTagNumber,
    /// The name is already taken.
    DuplicateTagName,
    /// The name is empty.
    InvalidTagSpec,
}

} // verus!
