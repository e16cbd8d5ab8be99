//! The version descriptor read from a Crash Log record header.

pub mod record_types;

use vstd::prelude::*;

verus! {

/// Format, product and record type of a Crash Log record, as read from its header.
#[derive(Clone, Copy, Debug, PartialEq, Eq, Structural)]
pub struct Version {
    /// Revision of the header format; `0` is the earliest (legacy) format.
    pub header_type: u16,
    /// Identifier of the product that emitted the record.
    pub product_id: u32,
    /// Kind of the record (see [`record_types`]).
    pub record_type: u8,
}

} // verus!
