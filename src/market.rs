//! The state of one marketplace: its currency ledger, who holds each asset,
//! and the open listings whose vaults keep assets in custody.
use std::collections::HashMap;
use vstd::prelude::*;
use vstd::std_specs::hash::group_hash_axioms;

use crate::derive::{listing_address, listing_seeds, marketplace_address, marketplace_seeds, program_address};
use crate::fee::{fee_of, split_fits, split_payment};
use crate::registry::Marketplace;

verus! {

broadcast use group_hash_axioms;

/// Why an operation of the marketplace was refused.
#[derive(Clone, Copy, Debug, PartialEq, Eq, Structural)]
pub enum MarketError {
    /// The marketplace name is empty or longer than 32 bytes.
    NameTooLong,
    /// A record already stands at the derived address.
    AlreadyExists,
    /// A listing's price must be positive.
    InvalidPrice,
    /// The caller does not hold the asset in a personal balance.
    NotAssetOwner,
    /// No open listing stands for the asset.
    ListingNotOpen,
    /// Only the maker of a listing may withdraw it.
    NotMaker,
    /// The taker's currency balance is below the price.
    InsufficientFunds,
    /// Checked arithmetic on a fee or a balance overflowed.
    ArithmeticOverflow,
    /// An issued asset must be one indivisible unit.
    NotUnique,
    /// No bump gives a valid derived address for the seeds.
    DerivationFailed,
    /// A stored bump does not match the address derived from the seeds.
    AddressMismatch,
}

/// An open sale offer; its vault holds the asset while it stands.
#[derive(Clone, Copy, Debug, PartialEq, Eq, Structural)]
pub struct Listing {
    pub maker: u64,
    pub price: u64,
    pub bump: u8,
}

/// Descriptive metadata of an issued asset.
#[derive(Clone, Debug)]
pub struct InitTokenParams {
    pub name: String,
    pub symbol: String,
    pub uri: String,
    pub decimals: u8,
}

/// Whether an issue of `quantity` units with `decimals` decimals makes a
/// unique asset.
pub open spec fn unique_issue(decimals: u8, quantity: u64) -> bool {
    quantity == 1 && decimals == 0
}

/// Checks that an issue makes a unique asset: one unit, no decimals.
pub fn is_unique_issue(decimals: u8, quantity: u64) -> (r: bool)
    ensures
        r == unique_issue(decimals, quantity),
{
    quantity == 1 && decimals == 0
}

/// The abstract state of a marketplace.
pub struct MarketView {
    /// Currency balances; an absent account holds zero.
    pub currency: Map<u64, u64>,
    /// For each asset outside custody, the account that holds it.
    pub holders: Map<u64, u64>,
    /// For each asset in custody, its open listing.
    pub listings: Map<u64, Listing>,
    /// Assets that were issued.
    pub issued: Set<u64>,
    pub treasury: u64,
    pub fee: u16,
    /// The marketplace's derived address.
    pub address: Seq<u8>,
    /// The program under which addresses are derived.
    pub program_id: Seq<u8>,
}

/// A currency balance, zero for an account that never held any.
pub open spec fn balance_of(currency: Map<u64, u64>, a: u64) -> int {
    if currency.contains_key(a) {
        currency[a] as int
    } else {
        0
    }
}

/// Each issued asset is in exactly one place: a personal balance or a vault.
pub open spec fn custody_wf(v: MarketView) -> bool {
    &&& forall|a: u64| v.holders.contains_key(a) ==> v.issued.contains(a)
    &&& forall|a: u64| v.listings.contains_key(a) ==> v.issued.contains(a)
    &&& forall|a: u64| #[trigger] v.issued.contains(a) ==> (v.holders.contains_key(a) <==> !v.listings.contains_key(a))
}

/// The result of issuing `asset` to `owner`.
pub open spec fn issue_outcome(v: MarketView, asset: u64, owner: u64, decimals: u8, quantity: u64) -> Result<MarketView, MarketError> {
    if v.issued.contains(asset) {
        Err(MarketError::AlreadyExists)
    } else if !unique_issue(decimals, quantity) {
        Err(MarketError::NotUnique)
    } else {
        Ok(MarketView { holders: v.holders.insert(asset, owner), issued: v.issued.insert(asset), ..v })
    }
}

/// The result of `maker` listing `asset` at `price`.
pub open spec fn list_outcome(v: MarketView, maker: u64, asset: u64, price: u64, bump: u8) -> Result<MarketView, MarketError> {
    if v.listings.contains_key(asset) {
        Err(MarketError::AlreadyExists)
    } else if price == 0 {
        Err(MarketError::InvalidPrice)
    } else if !(v.holders.contains_key(asset) && v.holders[asset] == maker) {
        Err(MarketError::NotAssetOwner)
    } else {
        Ok(MarketView {
            holders: v.holders.remove(asset),
            listings: v.listings.insert(asset, Listing { maker, price, bump }),
            ..v
        })
    }
}

/// The result of `maker` withdrawing the listing of `asset`.
pub open spec fn unlist_outcome(v: MarketView, maker: u64, asset: u64) -> Result<MarketView, MarketError> {
    if !v.listings.contains_key(asset) {
        Err(MarketError::ListingNotOpen)
    } else if v.listings[asset].maker != maker {
        Err(MarketError::NotMaker)
    } else {
        Ok(MarketView { holders: v.holders.insert(asset, maker), listings: v.listings.remove(asset), ..v })
    }
}

/// A balance after a sale: the taker pays the price, the maker receives the
/// price less the fee and the treasury receives the fee.
pub open spec fn settled_balance(currency: Map<u64, u64>, a: u64, taker: u64, maker: u64, treasury: u64, price: int, fee: int) -> int {
    balance_of(currency, a) - (if a == taker { price } else { 0 }) + (if a == maker { price - fee } else { 0 }) + (if a == treasury { fee } else { 0 })
}

/// The currency ledger after a sale.
pub open spec fn settled_currency(currency: Map<u64, u64>, taker: u64, maker: u64, treasury: u64, price: int, fee: int) -> Map<u64, u64> {
    currency
        .insert(taker, settled_balance(currency, taker, taker, maker, treasury, price, fee) as u64)
        .insert(maker, settled_balance(currency, maker, taker, maker, treasury, price, fee) as u64)
        .insert(treasury, settled_balance(currency, treasury, taker, maker, treasury, price, fee) as u64)
}

/// Whether every balance that a sale touches stays within a `u64`.
pub open spec fn settlement_fits(currency: Map<u64, u64>, taker: u64, maker: u64, treasury: u64, price: int, fee: int) -> bool {
    &&& settled_balance(currency, taker, taker, maker, treasury, price, fee) <= u64::MAX
    &&& settled_balance(currency, maker, taker, maker, treasury, price, fee) <= u64::MAX
    &&& settled_balance(currency, treasury, taker, maker, treasury, price, fee) <= u64::MAX
}

/// The result of `taker` buying the listed `asset`.
pub open spec fn purchase_outcome(v: MarketView, taker: u64, asset: u64) -> Result<MarketView, MarketError> {
    if !v.listings.contains_key(asset) {
        Err(MarketError::ListingNotOpen)
    } else {
        let l = v.listings[asset];
        let fee = fee_of(l.price as int, v.fee as int);
        if !split_fits(l.price as int, v.fee as int) {
            Err(MarketError::ArithmeticOverflow)
        } else if balance_of(v.currency, taker) < l.price {
            Err(MarketError::InsufficientFunds)
        } else if !settlement_fits(v.currency, taker, l.maker, v.treasury, l.price as int, fee) {
            Err(MarketError::ArithmeticOverflow)
        } else {
            Ok(MarketView {
                currency: settled_currency(v.currency, taker, l.maker, v.treasury, l.price as int, fee),
                holders: v.holders.insert(asset, taker),
                listings: v.listings.remove(asset),
                ..v
            })
        }
    }
}

/// What the state of a call is afterwards: the new state on success, the old
/// one unchanged on failure.
pub open spec fn applied(outcome: Result<MarketView, MarketError>, before: MarketView, r: Result<(), MarketError>, after: MarketView) -> bool {
    match outcome {
        Ok(v) => r is Ok && after == v,
        Err(e) => r == Err::<(), MarketError>(e) && after == before,
    }
}

/// One marketplace with its ledgers.
pub struct Market {
    pub marketplace: Marketplace,
    pub treasury: u64,
    program_id: [u8; 32],
    address: [u8; 32],
    currency: HashMap<u64, u64>,
    holders: HashMap<u64, u64>,
    listings: HashMap<u64, Listing>,
    metadata: HashMap<u64, InitTokenParams>,
}

impl View for Market {
    type V = MarketView;

    closed spec fn view(&self) -> MarketView {
        MarketView {
            currency: self.currency@,
            holders: self.holders@,
            listings: self.listings@,
            issued: self.metadata@.dom(),
            treasury: self.treasury,
            fee: self.marketplace.fee,
            address: self.address@,
            program_id: self.program_id@,
        }
    }
}

impl Market {
    /// Each issued asset sits in exactly one place.
    pub open spec fn wf(&self) -> bool {
        custody_wf(self@)
    }

    /// A marketplace with empty ledgers whose fees go to `treasury`. Its
    /// address is derived from its name; the bump it stores must match.
    pub fn new(marketplace: Marketplace, program_id: [u8; 32], treasury: u64) -> (r: Result<Market, MarketError>)
        ensures
            match program_address(marketplace_seeds(marketplace.name@), program_id@) {
                None => r == Err::<Market, MarketError>(MarketError::DerivationFailed),
                Some((a, b)) => if b != marketplace.bump {
                    r == Err::<Market, MarketError>(MarketError::AddressMismatch)
                } else {
                    &&& r is Ok
                    &&& r->Ok_0.wf()
                    &&& r->Ok_0@ == (MarketView {
                        currency: Map::empty(),
                        holders: Map::empty(),
                        listings: Map::empty(),
                        issued: Set::empty(),
                        treasury,
                        fee: marketplace.fee,
                        address: a,
                        program_id: program_id@,
                    })
                },
            },
    {
        let address = match marketplace_address(&program_id, &marketplace.name) {
            Some((a, b)) => {
                if b != marketplace.bump {
                    return Err(MarketError::AddressMismatch);
                }
                a
            },
            None => return Err(MarketError::DerivationFailed),
        };
        let r = Market {
            marketplace,
            treasury,
            program_id,
            address,
            currency: HashMap::new(),
            holders: HashMap::new(),
            listings: HashMap::new(),
            metadata: HashMap::new(),
        };
        assert(r@.issued =~= Set::<u64>::empty());
        Ok(r)
    }

    /// The marketplace's derived address.
    pub fn address(&self) -> (r: [u8; 32])
        ensures
            r@ == self@.address,
    {
        self.address
    }

    /// The fee rate of this marketplace, in basis points.
    pub fn fee(&self) -> (r: u16)
        ensures
            r == self@.fee,
    {
        self.marketplace.fee
    }

    /// The currency balance of `account`.
    pub fn balance(&self, account: u64) -> (r: u64)
        ensures
            r == balance_of(self@.currency, account),
    {
        match self.currency.get(&account) {
            Some(b) => *b,
            None => 0,
        }
    }

    /// The account holding `asset` in a personal balance, if any.
    pub fn holder(&self, asset: u64) -> (r: Option<u64>)
        ensures
            r == (if self@.holders.contains_key(asset) { Some(self@.holders[asset]) } else { None::<u64> }),
    {
        match self.holders.get(&asset) {
            Some(h) => Some(*h),
            None => None,
        }
    }

    /// The open listing of `asset`, if any.
    pub fn listing(&self, asset: u64) -> (r: Option<Listing>)
        ensures
            r == (if self@.listings.contains_key(asset) { Some(self@.listings[asset]) } else { None::<Listing> }),
    {
        match self.listings.get(&asset) {
            Some(l) => Some(*l),
            None => None,
        }
    }

    /// Credits `amount` of currency to `account`; fails on overflow.
    pub fn deposit(&mut self, account: u64, amount: u64) -> (r: Result<(), MarketError>)
        requires
            old(self).wf(),
        ensures
            final(self).wf(),
            balance_of(old(self)@.currency, account) + amount <= u64::MAX ==> r is Ok && final(self)@ == (MarketView {
                currency: old(self)@.currency.insert(account, (balance_of(old(self)@.currency, account) + amount) as u64),
                ..old(self)@
            }),
            balance_of(old(self)@.currency, account) + amount > u64::MAX ==> r == Err::<(), MarketError>(MarketError::ArithmeticOverflow) && final(self)@ == old(self)@,
    {
        let b = self.balance(account);
        match b.checked_add(amount) {
            Some(nb) => {
                self.currency.insert(account, nb);
                Ok(())
            },
            None => Err(MarketError::ArithmeticOverflow),
        }
    }

    /// A balance after a sale, in a width where no step overflows.
    fn settled(&self, a: u64, taker: u64, maker: u64, price: u64, fee: u64) -> (r: u128)
        requires
            fee <= price,
            a == taker ==> balance_of(self@.currency, a) >= price,
        ensures
            r == settled_balance(self@.currency, a, taker, maker, self@.treasury, price as int, fee as int),
    {
        let mut r: u128 = self.balance(a) as u128;
        if a == taker {
            r = r - price as u128;
        }
        if a == maker {
            r = r + (price - fee) as u128;
        }
        if a == self.treasury {
            r = r + fee as u128;
        }
        r
    }

    /// Buys the listed `asset` for `taker`: the maker receives the price less
    /// the marketplace fee, the treasury receives the fee, the asset leaves
    /// the vault for the taker, and the listing is closed. On any failure
    /// nothing changes.
    pub fn purchase(&mut self, taker: u64, asset: u64) -> (r: Result<(), MarketError>)
        requires
            old(self).wf(),
        ensures
            final(self).wf(),
            applied(purchase_outcome(old(self)@, taker, asset), old(self)@, r, final(self)@),
    {
        let l = match self.listings.get(&asset) {
            Some(l) => *l,
            None => return Err(MarketError::ListingNotOpen),
        };
        let (fee, to_maker) = match split_payment(l.price, self.marketplace.fee) {
            Some(p) => p,
            None => return Err(MarketError::ArithmeticOverflow),
        };
        if self.balance(taker) < l.price {
            return Err(MarketError::InsufficientFunds);
        }
        let treasury = self.treasury;
        let t = self.settled(taker, taker, l.maker, l.price, fee);
        let m = self.settled(l.maker, taker, l.maker, l.price, fee);
        let tr = self.settled(treasury, taker, l.maker, l.price, fee);
        if t > u64::MAX as u128 || m > u64::MAX as u128 || tr > u64::MAX as u128 {
            return Err(MarketError::ArithmeticOverflow);
        }
        self.currency.insert(taker, t as u64);
        self.currency.insert(l.maker, m as u64);
        self.currency.insert(treasury, tr as u64);
        self.holders.insert(asset, taker);
        self.listings.remove(&asset);
        Ok(())
    }

    /// Opens a listing of `asset` at `price`, moving the asset from the
    /// maker's personal balance into the vault of the listing, whose bump is
    /// derived from the marketplace's address and the asset.
    pub fn list(&mut self, maker: u64, asset: u64, price: u64) -> (r: Result<(), MarketError>)
        requires
            old(self).wf(),
        ensures
            final(self).wf(),
            match program_address(listing_seeds(old(self)@.address, asset), old(self)@.program_id) {
                None => r == Err::<(), MarketError>(MarketError::DerivationFailed) && final(self)@ == old(self)@,
                Some((_, bump)) => applied(list_outcome(old(self)@, maker, asset, price, bump), old(self)@, r, final(self)@),
            },
    {
        let bump = match listing_address(&self.program_id, &self.address, asset) {
            Some((_, b)) => b,
            None => return Err(MarketError::DerivationFailed),
        };
        if self.listings.contains_key(&asset) {
            return Err(MarketError::AlreadyExists);
        }
        if price == 0 {
            return Err(MarketError::InvalidPrice);
        }
        match self.holders.get(&asset) {
            Some(h) => {
                if *h != maker {
                    return Err(MarketError::NotAssetOwner);
                }
            },
            None => return Err(MarketError::NotAssetOwner),
        }
        self.holders.remove(&asset);
        self.listings.insert(asset, Listing { maker, price, bump });
        Ok(())
    }

    /// Withdraws the maker's listing of `asset`, returning the asset from
    /// the vault to the maker's personal balance. No fee applies.
    pub fn unlist(&mut self, maker: u64, asset: u64) -> (r: Result<(), MarketError>)
        requires
            old(self).wf(),
        ensures
            final(self).wf(),
            applied(unlist_outcome(old(self)@, maker, asset), old(self)@, r, final(self)@),
    {
        let l = match self.listings.get(&asset) {
            Some(l) => *l,
            None => return Err(MarketError::ListingNotOpen),
        };
        if l.maker != maker {
            return Err(MarketError::NotMaker);
        }
        self.listings.remove(&asset);
        self.holders.insert(asset, maker);
        Ok(())
    }

    /// Issues a new unique asset to `owner` and records its metadata. The
    /// asset must be a single unit with no decimals.
    pub fn mint_nft(&mut self, owner: u64, asset: u64, metadata: InitTokenParams, quantity: u64) -> (r: Result<(), MarketError>)
        requires
            old(self).wf(),
        ensures
            final(self).wf(),
            applied(issue_outcome(old(self)@, asset, owner, metadata.decimals, quantity), old(self)@, r, final(self)@),
    {
        if self.metadata.contains_key(&asset) {
            return Err(MarketError::AlreadyExists);
        }
        if !is_unique_issue(metadata.decimals, quantity) {
            return Err(MarketError::NotUnique);
        }
        self.metadata.insert(asset, metadata);
        self.holders.insert(asset, owner);
        Ok(())
    }
}

} // verus!
