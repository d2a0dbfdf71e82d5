//! The Sale Executor's planning half: validating a purchase against its
//! listing and computing, as one value, every effect the purchase must have.

use vstd::prelude::*;
use crate::errors::ErrorCode;
use crate::fees::{commission_of, seller_share_of, split_payment};
use crate::listing::Drop;

verus! {

/// Deployment-wide constants of the sale executor. They are fixed per
/// deployment, not caller-supplied: the host passes them in at construction.
#[derive(Debug)]
pub struct SaleConfig {
    /// The platform wallet that receives every commission.
    pub commission_recipient: u64,
    /// The deterministic, keyless signing identity that authorizes asset
    /// issuance and metadata registration. The host re-derives it from a
    /// fixed label on every invocation; it is never stored.
    pub issuance_authority: u64,
    /// Display name registered for every issued asset.
    pub display_name: String,
    /// Display symbol registered for every issued asset.
    pub display_symbol: String,
}

/// One entry of an asset's creator list.
#[derive(Clone, Copy, Debug, PartialEq, Eq, Structural)]
pub struct Creator {
    pub address: u64,
    pub verified: bool,
    pub share: u8,
}

/// The descriptive record bound to an issued asset.
#[derive(Debug)]
pub struct AssetMetadata {
    pub name: String,
    pub symbol: String,
    pub uri: String,
    /// Resale-royalty rate; always zero for this platform.
    pub seller_fee_basis_points: u16,
    pub creators: Vec<Creator>,
    /// Whether the registration stays updatable by the issuance authority.
    pub is_mutable: bool,
}

/// The mathematical value of an `AssetMetadata`: its strings as character
/// sequences, its creator list as a sequence.
pub ghost struct AssetMetadataView {
    pub name: Seq<char>,
    pub symbol: Seq<char>,
    pub uri: Seq<char>,
    pub seller_fee_basis_points: u16,
    pub creators: Seq<Creator>,
    pub is_mutable: bool,
}

impl View for AssetMetadata {
    type V = AssetMetadataView;

    open spec fn view(&self) -> AssetMetadataView {
        AssetMetadataView {
            name: self.name@,
            symbol: self.symbol@,
            uri: self.uri@,
            seller_fee_basis_points: self.seller_fee_basis_points,
            creators: self.creators@,
            is_mutable: self.is_mutable,
        }
    }
}

/// One currency movement.
#[derive(Clone, Copy, Debug, PartialEq, Eq, Structural)]
pub struct Transfer {
    pub from: u64,
    pub to: u64,
    pub amount: u64,
}

/// Issuance of a fixed supply of a fresh asset to one holder.
#[derive(Clone, Copy, Debug, PartialEq, Eq, Structural)]
pub struct MintPlan {
    /// Identity of the freshly created asset type.
    pub mint: u64,
    /// The buyer, who controls the holder account that receives the supply.
    pub recipient: u64,
    /// The issuance authority that signs the mint.
    pub authority: u64,
    /// Units minted; always exactly one.
    pub amount: u64,
}

/// Every effect of one purchase, staged as a value: two currency transfers,
/// one mint, and one metadata registration, to be committed in this order as
/// a single indivisible unit.
#[derive(Debug)]
pub struct SalePlan {
    pub seller_transfer: Transfer,
    pub commission_transfer: Transfer,
    pub mint: MintPlan,
    pub metadata: AssetMetadata,
}

/// Validates a purchase of `drop` and computes its complete effect.
///
/// Checks run in a fixed order: the payment must equal the listed price
/// exactly (`IncorrectPaymentAmount` otherwise), the presented seller must be
/// the recorded one (`OwnershipMismatch` otherwise), and the checked
/// seller-share subtraction must not underflow (`ArithmeticError`; impossible
/// for a well-formed listing). Nothing is mutated: the listing is read-only,
/// so any later purchase of the same listing computes the same split.
pub fn buy_drop(
    drop: &Drop,
    payment_amount: u64,
    seller: u64,
    buyer: u64,
    mint: u64,
    config: &SaleConfig,
) -> (r: Result<SalePlan, ErrorCode>)
    ensures
        r is Ok <==> (payment_amount == drop.price && seller == drop.seller && commission_of(
            drop.price as int,
            drop.commission_bps as int,
        ) <= drop.price),
        drop.wf() && payment_amount == drop.price && seller == drop.seller ==> r is Ok,
        (payment_amount != drop.price) <==> r == Err::<SalePlan, ErrorCode>(
            ErrorCode::IncorrectPaymentAmount,
        ),
        (payment_amount == drop.price && seller != drop.seller) <==> r == Err::<SalePlan,
            ErrorCode,
        >(ErrorCode::OwnershipMismatch),
        r matches Ok(p) ==> {
            &&& p.commission_transfer.amount == commission_of(
                payment_amount as int,
                drop.commission_bps as int,
            )
            &&& p.seller_transfer.amount == seller_share_of(
                payment_amount as int,
                drop.commission_bps as int,
            )
            &&& p.seller_transfer.amount + p.commission_transfer.amount == payment_amount
            &&& p.seller_transfer == (Transfer {
                from: buyer,
                to: drop.seller,
                amount: p.seller_transfer.amount,
            })
            &&& p.commission_transfer == (Transfer {
                from: buyer,
                to: config.commission_recipient,
                amount: p.commission_transfer.amount,
            })
            &&& p.mint == (MintPlan {
                mint,
                recipient: buyer,
                authority: config.issuance_authority,
                amount: 1u64,
            })
            &&& p.metadata.name@ == config.display_name@
            &&& p.metadata.symbol@ == config.display_symbol@
            &&& p.metadata.uri@ == drop.metadata_uri@
            &&& p.metadata.seller_fee_basis_points == 0
            &&& p.metadata.creators@ == seq![
                (Creator { address: config.issuance_authority, verified: true, share: 100u8 }),
            ]
            &&& p.metadata.is_mutable
        },
{
    if payment_amount != drop.price {
        return Err(ErrorCode::IncorrectPaymentAmount);
    }
    if seller != drop.seller {
        return Err(ErrorCode::OwnershipMismatch);
    }
    let split = match split_payment(payment_amount, drop.commission_bps) {
        Ok(s) => s,
        Err(e) => {
            return Err(e);
        },
    };
    let mut creators: Vec<Creator> = Vec::new();
    creators.push(Creator { address: config.issuance_authority, verified: true, share: 100 });
    proof {
        assert(creators@ =~= seq![
            (Creator { address: config.issuance_authority, verified: true, share: 100u8 }),
        ]);
    }
    Ok(
        SalePlan {
            seller_transfer: Transfer {
                from: buyer,
                to: drop.seller,
                amount: split.seller_amount,
            },
            commission_transfer: Transfer {
                from: buyer,
                to: config.commission_recipient,
                amount: split.commission_amount,
            },
            mint: MintPlan {
                mint,
                recipient: buyer,
                authority: config.issuance_authority,
                amount: 1,
            },
            metadata: AssetMetadata {
                name: config.display_name.clone(),
                symbol: config.display_symbol.clone(),
                uri: drop.metadata_uri.clone(),
                seller_fee_basis_points: 0,
                creators,
                is_mutable: true,
            },
        },
    )
}

} // verus!
