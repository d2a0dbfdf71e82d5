//! The Sale Executor's committing half: running a planned purchase against
//! the ledger as one indivisible unit. Either every effect lands — both
//! transfers, the mint, the metadata registration — or the ledger is exactly
//! as if the purchase was never attempted.

use vstd::prelude::*;
use crate::errors::{ErrorCode, SaleError};
use crate::fees::{commission_of, seller_share_of};
use crate::ledger::Ledger;
use crate::listing::Drop;
use crate::sale::{buy_drop, Creator, SaleConfig};

verus! {

/// What one account's balance is after one transfer, stated pointwise.
pub open spec fn balance_after_transfer(
    l: Ledger,
    from: u64,
    to: u64,
    amount: int,
    account: u64,
) -> int {
    l.balance_of(account) - (if account == from {
        amount
    } else {
        0
    }) + (if account == to {
        amount
    } else {
        0
    })
}

/// Whether the whole effect of a validated purchase can land on `l`: the
/// seller transfer goes through, then the commission transfer goes through
/// on the state the first one leaves, and the chosen mint identity is free.
pub open spec fn sale_applies(
    l: Ledger,
    buyer: u64,
    seller: u64,
    recipient: u64,
    seller_amount: int,
    commission_amount: int,
    mint: u64,
) -> bool {
    &&& l.transfer_allowed(buyer, seller, seller_amount)
    &&& balance_after_transfer(l, buyer, seller, seller_amount, buyer) >= commission_amount
    &&& (buyer != recipient ==> balance_after_transfer(l, buyer, seller, seller_amount, recipient)
        + commission_amount <= u64::MAX)
    &&& !l.mint_used(mint)
}

/// The caller's record of one completed purchase.
#[derive(Clone, Copy, Debug, PartialEq, Eq, Structural)]
pub struct SaleReceipt {
    /// What the seller received.
    pub seller_amount: u64,
    /// What the commission recipient received.
    pub commission_amount: u64,
    /// The identity of the asset issued to the buyer.
    pub mint: u64,
}

/// Runs one purchase of `drop` against `ledger`, atomically.
///
/// Validation runs first, in order: exact payment, then recorded seller.
/// The effects are then staged on a scratch copy of the ledger — the seller
/// paid, then the commission recipient, then one unit of a fresh asset
/// minted to the buyer with the listing's metadata registered — and
/// committed in one assignment. On any failure, the caller's ledger is
/// untouched: no partial transfer, no minted-but-unlabeled asset.
pub fn execute_buy(
    ledger: &mut Ledger,
    drop: &Drop,
    payment_amount: u64,
    seller: u64,
    buyer: u64,
    mint: u64,
    config: &SaleConfig,
) -> (r: Result<SaleReceipt, SaleError>)
    ensures
        r is Ok <==> (payment_amount == drop.price && seller == drop.seller && commission_of(
            drop.price as int,
            drop.commission_bps as int,
        ) <= drop.price && sale_applies(
            *old(ledger),
            buyer,
            drop.seller,
            config.commission_recipient,
            seller_share_of(drop.price as int, drop.commission_bps as int),
            commission_of(drop.price as int, drop.commission_bps as int),
            mint,
        )),
        (payment_amount != drop.price) <==> r == Err::<SaleReceipt, SaleError>(
            SaleError::Program(ErrorCode::IncorrectPaymentAmount),
        ),
        (payment_amount == drop.price && seller != drop.seller) <==> r == Err::<SaleReceipt,
            SaleError,
        >(SaleError::Program(ErrorCode::OwnershipMismatch)),
        r matches Err(SaleError::Ledger(_)) ==> payment_amount == drop.price && seller
            == drop.seller && !sale_applies(
            *old(ledger),
            buyer,
            drop.seller,
            config.commission_recipient,
            seller_share_of(drop.price as int, drop.commission_bps as int),
            commission_of(drop.price as int, drop.commission_bps as int),
            mint,
        ),
        r is Err ==> final(ledger).balances() == old(ledger).balances() && final(ledger).assets()
            == old(ledger).assets(),
        r matches Ok(receipt) ==> {
            &&& receipt.commission_amount == commission_of(
                payment_amount as int,
                drop.commission_bps as int,
            )
            &&& receipt.seller_amount == seller_share_of(
                payment_amount as int,
                drop.commission_bps as int,
            )
            &&& receipt.seller_amount + receipt.commission_amount == payment_amount
            &&& receipt.mint == mint
            &&& forall|a: u64|
                final(ledger).balance_of(a) == old(ledger).balance_of(a) + (if a == drop.seller {
                    receipt.seller_amount as int
                } else {
                    0
                }) + (if a == config.commission_recipient {
                    receipt.commission_amount as int
                } else {
                    0
                }) - (if a == buyer {
                    payment_amount as int
                } else {
                    0
                })
            &&& final(ledger).assets().len() == old(ledger).assets().len() + 1
            &&& final(ledger).assets() == old(ledger).assets().push(final(ledger).assets().last())
            &&& {
                let issued = final(ledger).assets().last();
                &&& issued.mint == mint
                &&& issued.owner == buyer
                &&& issued.supply == 1
                &&& issued.metadata.name == config.display_name@
                &&& issued.metadata.symbol == config.display_symbol@
                &&& issued.metadata.uri == drop.metadata_uri@
                &&& issued.metadata.seller_fee_basis_points == 0
                &&& issued.metadata.creators == seq![
                    (Creator {
                        address: config.issuance_authority,
                        verified: true,
                        share: 100u8,
                    }),
                ]
                &&& issued.metadata.is_mutable
            }
        },
{
    let plan = match buy_drop(drop, payment_amount, seller, buyer, mint, config) {
        Ok(p) => p,
        Err(e) => {
            return Err(SaleError::Program(e));
        },
    };
    let mut staged = ledger.snapshot();
    let ghost s0 = staged;
    match staged.transfer(buyer, drop.seller, plan.seller_transfer.amount) {
        Ok(u) => u,
        Err(e) => {
            return Err(SaleError::Ledger(e));
        },
    };
    let ghost s1 = staged;
    match staged.transfer(buyer, config.commission_recipient, plan.commission_transfer.amount) {
        Ok(u) => u,
        Err(e) => {
            return Err(SaleError::Ledger(e));
        },
    };
    let ghost s2 = staged;
    let receipt = SaleReceipt {
        seller_amount: plan.seller_transfer.amount,
        commission_amount: plan.commission_transfer.amount,
        mint,
    };
    match staged.mint_asset(mint, buyer, plan.metadata) {
        Ok(u) => u,
        Err(e) => {
            return Err(SaleError::Ledger(e));
        },
    };
    *ledger = staged;
    proof {
        assert forall|a: u64|
            ledger.balance_of(a) == old(ledger).balance_of(a) + (if a == drop.seller {
                receipt.seller_amount as int
            } else {
                0
            }) + (if a == config.commission_recipient {
                receipt.commission_amount as int
            } else {
                0
            }) - (if a == buyer {
                payment_amount as int
            } else {
                0
            }) by {
            assert(s0.balance_of(a) == old(ledger).balance_of(a));
            assert(s1.balance_of(a) == s0.balance_of(a) - (if a == buyer {
                receipt.seller_amount as int
            } else {
                0
            }) + (if a == drop.seller {
                receipt.seller_amount as int
            } else {
                0
            }));
            assert(s2.balance_of(a) == s1.balance_of(a) - (if a == buyer {
                receipt.commission_amount as int
            } else {
                0
            }) + (if a == config.commission_recipient {
                receipt.commission_amount as int
            } else {
                0
            }));
            assert(ledger.balance_of(a) == s2.balance_of(a));
        }
    }
    Ok(receipt)
}

} // verus!
