pub mod inline;
pub mod manager;
pub mod meta;
pub mod smart;

pub use crate::inline::InlineBuffer;
pub use crate::manager::{StringID, StringManager};
pub use crate::meta::Meta;
pub use crate::smart::{Repr, SmartString, SmartStringKind};

use vstd::prelude::*;

verus! {

/// Inline capacity in bytes: the stack footprint of an owned string on a
/// 64-bit platform (three words of eight bytes each).
pub const MAX_SIZE: usize = 24;

/// Bit mask whose two high bits mark the final byte of an inline buffer as a
/// length byte rather than a content byte.
pub const LENGTH_MASK: u8 = 0b11000000;

} // verus!
