//! Record type tags that the layout quirks depend on.

use vstd::prelude::*;

verus! {

/// Performance core record.
pub const PCORE: u8 = 0x08;

/// Efficiency core record.
pub const ECORE: u8 = 0x09;

} // verus!
