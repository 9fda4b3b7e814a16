//! Game Boy and Game Boy Advance emulation cores with verified contracts.
use vstd::prelude::*;

pub mod common;
pub mod text;
pub mod bits;
pub mod gb;
pub mod gba;
pub mod link;
pub mod frontend;

verus! {
}
