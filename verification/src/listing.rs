//! The Listing Manager: creation and validation of a `Drop` record.

use vstd::prelude::*;
use crate::errors::ErrorCode;

verus! {

/// Highest admissible commission rate: 10000 basis points, that is 100%.
pub const MAX_COMMISSION_BPS: u16 = 10000;

/// The record's fixed allocation holds at most this many characters of
/// metadata URI.
pub const MAX_URI_LEN: usize = 200;

/// A persistent listing record: one per item offered for sale.
///
/// Every field is written once at creation and is immutable thereafter; a
/// purchase only reads the record. Party identities are opaque integer
/// handles: the host runtime maps its own account keys onto them.
#[derive(Debug)]
pub struct Drop {
    /// Identity of the party that created the listing and receives the
    /// seller share of each payment.
    pub seller: u64,
    /// Exact required payment, in the ledger's smallest currency unit.
    pub price: u64,
    /// Commission rate in basis points, in `[0, 10000]`.
    pub commission_bps: u16,
    /// Bounded-length pointer to off-ledger descriptive content.
    pub metadata_uri: String,
}

impl Drop {
    /// The record's invariant: the commission rate is at most 100% and the
    /// URI fits the record's fixed allocation.
    pub open spec fn wf(&self) -> bool {
        &&& self.commission_bps <= MAX_COMMISSION_BPS
        &&& self.metadata_uri@.len() <= MAX_URI_LEN
    }
}

/// Creates one new listing bound to `seller`. Fails with
/// `InvalidCommissionBps` exactly when the rate exceeds 100%; no other input
/// is rejected and nothing else is touched.
pub fn create_drop(seller: u64, price: u64, commission_bps: u16, metadata_uri: String) -> (r:
    Result<Drop, ErrorCode>)
    requires
        metadata_uri@.len() <= MAX_URI_LEN,
    ensures
        r is Ok <==> commission_bps <= MAX_COMMISSION_BPS,
        r matches Ok(d) ==> {
            &&& d.seller == seller
            &&& d.price == price
            &&& d.commission_bps == commission_bps
            &&& d.metadata_uri@ == metadata_uri@
            &&& d.wf()
        },
        r is Err ==> r == Err::<Drop, ErrorCode>(ErrorCode::InvalidCommissionBps),
{
    if commission_bps > MAX_COMMISSION_BPS {
        return Err(ErrorCode::InvalidCommissionBps);
    }
    Ok(Drop { seller, price, commission_bps, metadata_uri })
}

} // verus!
