//! Collection of erratas present in the Intel(R) Crash Log technology
//!
//! The erratas collected in this module reflect the corrections that some products needed in
//! the structure of the Crash Log record layout.

use vstd::prelude::*;

use crate::header::Version;
use crate::header::record_types;

verus! {

/// Collection of Intel Crash Log erratas
#[derive(Clone, Copy, Debug, PartialEq, Eq, Structural)]
pub struct Errata {
    /// Type0 server legacy header
    ///
    /// Some Intel(R) products in the server segment are using legacy Crash Log record headers
    /// with Type0, which has a different layout compared with the currently defined Type0
    /// Header.
    pub type0_legacy_server: bool,
    /// Type0 server legacy header box record
    ///
    /// Some Intel(R) products in the server segment that are using the legacy Crash Log record
    /// header with Type0 are using the PCORE record type with the same functionality as a BOX
    /// record.
    pub type0_legacy_server_box: bool,
    /// Core record using record size in bytes
    ///
    /// The Crash Log headers have their sizes in DWORDs, but for some products that are using
    /// ECORE and PCORE Crash Log records, their sizes are written in bytes.
    pub core_record_size_bytes: bool,
}

/// Product identifier of the GNR server part.
pub const GNR_SP_PRODUCT_ID: u32 = 0x2f;

/// Product identifier of the SRF server part.
pub const SRF_SP_PRODUCT_ID: u32 = 0x82;

/// Product identifier of the CWF server part.
pub const CWF_SP_PRODUCT_ID: u32 = 0x8e;

pub(crate) const SERVER_LEGACY_PRODUCT_IDS: [u32; 3] = [
    GNR_SP_PRODUCT_ID,
    SRF_SP_PRODUCT_ID,
    CWF_SP_PRODUCT_ID,
];

/// Products below this identifier write the size of their ECORE records in bytes.
pub const ECORE_SIZE_BYTES_BELOW: u32 = 0x96;

/// Products below this identifier write the size of their PCORE records in bytes.
pub const PCORE_SIZE_BYTES_BELOW: u32 = 0x71;

/// The server products that use the legacy Type0 record header.
pub open spec fn server_legacy_products() -> Set<u32> {
    set![GNR_SP_PRODUCT_ID, SRF_SP_PRODUCT_ID, CWF_SP_PRODUCT_ID]
}

/// Whether `product_id` is one of the server products with the legacy Type0 header.
pub fn is_server_legacy_product(product_id: u32) -> (r: bool)
    ensures
        r == server_legacy_products().contains(product_id),
{
    let ids = SERVER_LEGACY_PRODUCT_IDS;
    let mut i: usize = 0;
    while i < ids.len()
        invariant
            ids@ == seq![GNR_SP_PRODUCT_ID, SRF_SP_PRODUCT_ID, CWF_SP_PRODUCT_ID],
            i <= ids@.len(),
            forall|j: int| 0 <= j < i ==> ids@[j] != product_id,
        decreases ids@.len() - i,
    {
        if ids[i] == product_id {
            return true;
        }
        i = i + 1;
    }
    false
}

impl Errata {
    /// The erratas that apply to a record of the given version.
    ///
    /// The legacy server header applies to Type0 headers of the legacy server products; the box
    /// role of PCORE records applies on top of it; core record sizes are in bytes for ECORE and
    /// PCORE records of products below their thresholds, unless the legacy header applies.
    pub open spec fn spec_from_version(version: Version) -> Errata {
        let legacy = version.header_type == 0 && server_legacy_products().contains(
            version.product_id,
        );
        Errata {
            type0_legacy_server: legacy,
            type0_legacy_server_box: legacy && version.record_type == record_types::PCORE,
            core_record_size_bytes: !legacy && ((version.record_type == record_types::ECORE
                && version.product_id < ECORE_SIZE_BYTES_BELOW) || (version.record_type
                == record_types::PCORE && version.product_id < PCORE_SIZE_BYTES_BELOW)),
        }
    }

    /// The box quirk never comes without the legacy header quirk, and the legacy header quirk
    /// excludes the byte-sized core records.
    pub open spec fn consistent(&self) -> bool {
        &&& self.type0_legacy_server_box ==> self.type0_legacy_server
        &&& self.type0_legacy_server ==> !self.core_record_size_bytes
    }

    /// Resolves the erratas that apply to a record of the given version.
    pub fn from_version(version: &Version) -> (r: Self)
        ensures
            r == Self::spec_from_version(*version),
            r.type0_legacy_server_box ==> r.type0_legacy_server,
            r.type0_legacy_server ==> !r.core_record_size_bytes,
            !server_legacy_products().contains(version.product_id) ==> !r.type0_legacy_server,
    {
        let type0_legacy_server = version.header_type == 0 && is_server_legacy_product(
            version.product_id,
        );
        let type0_legacy_server_box = type0_legacy_server && version.record_type
            == record_types::PCORE;

        let core_record_size_bytes = !type0_legacy_server && ((version.record_type
            == record_types::ECORE && version.product_id < ECORE_SIZE_BYTES_BELOW) || (
        version.record_type == record_types::PCORE && version.product_id
            < PCORE_SIZE_BYTES_BELOW));

        Errata { type0_legacy_server, type0_legacy_server_box, core_record_size_bytes }
    }
}

/// Every version resolves to a consistent set of erratas: the box quirk implies the legacy
/// header quirk, and the legacy header quirk rules out byte-sized core records.
pub proof fn lemma_resolution_consistent(version: Version)
    ensures
        Errata::spec_from_version(version).consistent(),
{
}

/// A product outside the legacy server products never gets the legacy header quirk, whatever
/// its header type.
pub proof fn lemma_non_legacy_product_has_no_legacy_header(version: Version)
    requires
        !server_legacy_products().contains(version.product_id),
    ensures
        !Errata::spec_from_version(version).type0_legacy_server,
{
}

/// Resolution depends on the version alone: equal versions resolve to equal erratas, so
/// resolving the same version again gives the same result.
pub proof fn lemma_resolution_deterministic(a: Version, b: Version)
    requires
        a == b,
    ensures
        Errata::spec_from_version(a) == Errata::spec_from_version(b),
{
}

} // verus!
