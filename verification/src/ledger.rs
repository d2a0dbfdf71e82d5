//! An explicit model of the ledger state a sale touches: native-currency
//! balances and the assets issued so far. The executor stages its effects on
//! a scratch copy and commits them in one step, which reproduces the host's
//! all-or-nothing guarantee.

use std::collections::HashMap;
use vstd::prelude::*;
use crate::errors::LedgerError;
use crate::sale::{AssetMetadata, AssetMetadataView};

verus! {

broadcast use vstd::std_specs::hash::group_hash_axioms;

/// One issued asset: a fresh mint with its fixed supply, the holder that
/// received it, and the descriptive record bound to it.
#[derive(Debug)]
pub struct IssuedAsset {
    /// Identity of the asset type; unique across the ledger.
    pub mint: u64,
    /// The party whose holder account received the supply.
    pub owner: u64,
    /// Units issued; this platform always issues exactly one.
    pub supply: u64,
    /// The registered descriptive record.
    pub metadata: AssetMetadata,
}

/// The mathematical value of an `IssuedAsset`.
pub ghost struct IssuedAssetView {
    pub mint: u64,
    pub owner: u64,
    pub supply: u64,
    pub metadata: AssetMetadataView,
}

impl View for IssuedAsset {
    type V = IssuedAssetView;

    open spec fn view(&self) -> IssuedAssetView {
        IssuedAssetView {
            mint: self.mint,
            owner: self.owner,
            supply: self.supply,
            metadata: self.metadata@,
        }
    }
}

/// Ledger-resident state: every account's balance in the smallest currency
/// unit, and the append-only list of issued assets.
pub struct Ledger {
    accounts: HashMap<u64, u64>,
    minted: Vec<IssuedAsset>,
}

impl Ledger {
    /// The balances as a partial map; an absent account holds nothing.
    pub closed spec fn balances(&self) -> Map<u64, u64> {
        self.accounts@
    }

    /// The issued assets, oldest first.
    pub closed spec fn assets(&self) -> Seq<IssuedAssetView> {
        self.minted@.map_values(|a: IssuedAsset| a@)
    }

    /// The balance of `account`, zero if it never received funds.
    pub open spec fn balance_of(&self, account: u64) -> int {
        if self.balances().contains_key(account) {
            self.balances()[account] as int
        } else {
            0
        }
    }

    /// Whether some issued asset already took the identity `mint`.
    pub open spec fn mint_used(&self, mint: u64) -> bool {
        exists|i: int| 0 <= i < self.assets().len() && (#[trigger] self.assets()[i]).mint == mint
    }

    /// When a transfer can go through: the payer holds the amount, and the
    /// payee's balance can take it. A transfer to oneself moves nothing, so
    /// it can never overflow.
    pub open spec fn transfer_allowed(&self, from: u64, to: u64, amount: int) -> bool {
        &&& self.balance_of(from) >= amount
        &&& (from != to ==> self.balance_of(to) + amount <= u64::MAX)
    }

    /// An empty ledger: no balances, no assets.
    pub fn new() -> (l: Ledger)
        ensures
            l.balances() == Map::<u64, u64>::empty(),
            l.assets() == Seq::<IssuedAssetView>::empty(),
            forall|a: u64| l.balance_of(a) == 0,
    {
        let l = Ledger { accounts: HashMap::new(), minted: Vec::new() };
        proof {
            assert(l.assets() =~= Seq::<IssuedAssetView>::empty());
        }
        l
    }

    /// The balance of `account`.
    pub fn balance(&self, account: u64) -> (b: u64)
        ensures
            b == self.balance_of(account),
    {
        match self.accounts.get(&account) {
            Some(v) => *v,
            None => 0,
        }
    }

    /// Credits `amount` to `account`: the host primitive that funds an
    /// account in the first place. Fails only when the balance would
    /// overflow, and then changes nothing.
    pub fn credit(&mut self, account: u64, amount: u64) -> (r: Result<(), LedgerError>)
        ensures
            r is Ok <==> old(self).balance_of(account) + amount <= u64::MAX,
            r is Ok ==> forall|a: u64|
                final(self).balance_of(a) == old(self).balance_of(a) + (if a == account {
                    amount as int
                } else {
                    0
                }),
            r is Err ==> r == Err::<(), LedgerError>(LedgerError::BalanceOverflow)
                && final(self).balances() == old(self).balances(),
            final(self).assets() == old(self).assets(),
    {
        let current: u64 = self.balance(account);
        if u64::MAX - current < amount {
            return Err(LedgerError::BalanceOverflow);
        }
        self.accounts.insert(account, current + amount);
        Ok(())
    }

    /// Moves `amount` from `from` to `to`, or fails without any effect:
    /// `InsufficientFunds` when the payer's balance is short, and otherwise
    /// `BalanceOverflow` when the payee's balance cannot take the amount.
    /// A zero amount always goes through.
    pub fn transfer(&mut self, from: u64, to: u64, amount: u64) -> (r: Result<(), LedgerError>)
        ensures
            r is Ok <==> old(self).transfer_allowed(from, to, amount as int),
            (old(self).balance_of(from) < amount) <==> r == Err::<(), LedgerError>(
                LedgerError::InsufficientFunds,
            ),
            (old(self).balance_of(from) >= amount && !old(self).transfer_allowed(
                from,
                to,
                amount as int,
            )) <==> r == Err::<(), LedgerError>(LedgerError::BalanceOverflow),
            r is Ok ==> forall|a: u64|
                final(self).balance_of(a) == old(self).balance_of(a) - (if a == from {
                    amount as int
                } else {
                    0
                }) + (if a == to {
                    amount as int
                } else {
                    0
                }),
            r is Err ==> final(self).balances() == old(self).balances(),
            final(self).assets() == old(self).assets(),
    {
        let from_balance: u64 = self.balance(from);
        if from_balance < amount {
            return Err(LedgerError::InsufficientFunds);
        }
        if from != to {
            let to_balance: u64 = self.balance(to);
            if u64::MAX - to_balance < amount {
                return Err(LedgerError::BalanceOverflow);
            }
            self.accounts.insert(from, from_balance - amount);
            self.accounts.insert(to, to_balance + amount);
        }
        Ok(())
    }

    /// Whether the identity `mint` is already taken by an issued asset.
    pub fn has_mint(&self, mint: u64) -> (b: bool)
        ensures
            b == self.mint_used(mint),
    {
        let mut i: usize = 0;
        while i < self.minted.len()
            invariant
                i <= self.minted.len(),
                forall|j: int| 0 <= j < i ==> (#[trigger] self.assets()[j]).mint != mint,
            decreases self.minted.len() - i,
        {
            if self.minted[i].mint == mint {
                proof {
                    assert(self.assets()[i as int].mint == mint);
                }
                return true;
            }
            i += 1;
        }
        false
    }

    /// Issues a fresh asset under the identity `mint` to `owner`, with a
    /// supply of one and `metadata` bound to it. Fails with `MintInUse`,
    /// and changes nothing, when the identity is already taken.
    pub fn mint_asset(&mut self, mint: u64, owner: u64, metadata: AssetMetadata) -> (r: Result<
        (),
        LedgerError,
    >)
        ensures
            r is Ok <==> !old(self).mint_used(mint),
            r is Ok ==> final(self).assets() == old(self).assets().push(
                (IssuedAssetView { mint, owner, supply: 1u64, metadata: metadata@ }),
            ),
            r is Err ==> r == Err::<(), LedgerError>(LedgerError::MintInUse)
                && final(self).assets() == old(self).assets(),
            final(self).balances() == old(self).balances(),
    {
        if self.has_mint(mint) {
            return Err(LedgerError::MintInUse);
        }
        self.minted.push(IssuedAsset { mint, owner, supply: 1, metadata });
        proof {
            assert(self.assets() =~= old(self).assets().push(
                (IssuedAssetView { mint, owner, supply: 1u64, metadata: metadata@ }),
            ));
        }
        Ok(())
    }

    /// How many assets were issued so far.
    pub fn asset_count(&self) -> (n: usize)
        ensures
            n == self.assets().len(),
    {
        self.minted.len()
    }

    /// The `i`-th issued asset, oldest first.
    pub fn asset_at(&self, i: usize) -> (a: &IssuedAsset)
        requires
            i < self.assets().len(),
        ensures
            a@ == self.assets()[i as int],
    {
        &self.minted[i]
    }

    /// An identical scratch copy to stage effects on.
    pub fn snapshot(&self) -> (c: Ledger)
        ensures
            c.balances() == self.balances(),
            c.assets() == self.assets(),
    {
        let mut minted: Vec<IssuedAsset> = Vec::new();
        let mut i: usize = 0;
        while i < self.minted.len()
            invariant
                i <= self.minted.len(),
                minted@.len() == i,
                forall|j: int| 0 <= j < i ==> (#[trigger] minted@[j])@ == self.minted@[j]@,
            decreases self.minted.len() - i,
        {
            minted.push(duplicate_asset(&self.minted[i]));
            i += 1;
        }
        let c = Ledger { accounts: self.accounts.clone(), minted };
        proof {
            assert(c.assets() =~= self.assets());
        }
        c
    }
}

/// A transfer of nothing is always allowed, whatever the two accounts hold:
/// a zero-commission sale still goes through its commission transfer.
pub proof fn lemma_zero_transfer_allowed(l: Ledger, from: u64, to: u64)
    ensures
        l.transfer_allowed(from, to, 0),
{
}

/// A copy of an issued asset with the same mathematical value.
fn duplicate_asset(a: &IssuedAsset) -> (c: IssuedAsset)
    ensures
        c@ == a@,
{
    IssuedAsset {
        mint: a.mint,
        owner: a.owner,
        supply: a.supply,
        metadata: duplicate_metadata(&a.metadata),
    }
}

/// A copy of a descriptive record with the same mathematical value.
fn duplicate_metadata(m: &AssetMetadata) -> (c: AssetMetadata)
    ensures
        c@ == m@,
{
    let mut creators: Vec<crate::sale::Creator> = Vec::new();
    let mut i: usize = 0;
    while i < m.creators.len()
        invariant
            i <= m.creators.len(),
            creators@ =~= m.creators@.subrange(0, i as int),
        decreases m.creators.len() - i,
    {
        creators.push(m.creators[i]);
        i += 1;
    }
    proof {
        assert(creators@ =~= m.creators@);
    }
    AssetMetadata {
        name: m.name.clone(),
        symbol: m.symbol.clone(),
        uri: m.uri.clone(),
        seller_fee_basis_points: m.seller_fee_basis_points,
        creators,
        is_mutable: m.is_mutable,
    }
}

} // verus!
