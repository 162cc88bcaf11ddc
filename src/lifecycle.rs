//! Facts about sequences of operations on one marketplace.
use vstd::prelude::*;

use crate::market::{balance_of, custody_wf, list_outcome, purchase_outcome, unlist_outcome, MarketError, MarketView};

verus! {

/// Listing an asset and then withdrawing the listing restores the whole
/// state: the maker holds the asset again, every currency balance is as it
/// was, and no listing remains.
pub proof fn lemma_list_unlist_round_trip(v: MarketView, maker: u64, asset: u64, price: u64, bump: u8)
    requires
        custody_wf(v),
        list_outcome(v, maker, asset, price, bump) is Ok,
    ensures
        unlist_outcome(list_outcome(v, maker, asset, price, bump)->Ok_0, maker, asset) == Ok::<MarketView, MarketError>(v),
{
    let w = list_outcome(v, maker, asset, price, bump)->Ok_0;
    let u = unlist_outcome(w, maker, asset)->Ok_0;
    assert(u.holders =~= v.holders);
    assert(u.listings =~= v.listings);
}

/// While a listing of an asset is open, a second listing of it is refused
/// as a conflict, whoever tries and at whatever price.
pub proof fn lemma_one_open_listing(v: MarketView, maker: u64, asset: u64, price: u64, bump: u8, maker2: u64, price2: u64, bump2: u8)
    requires
        list_outcome(v, maker, asset, price, bump) is Ok,
    ensures
        list_outcome(list_outcome(v, maker, asset, price, bump)->Ok_0, maker2, asset, price2, bump2)
            == Err::<MarketView, MarketError>(MarketError::AlreadyExists),
{
}

/// A purchase of an asset with no open listing is refused, so no currency
/// or asset moves.
pub proof fn lemma_purchase_needs_open_listing(v: MarketView, taker: u64, asset: u64)
    requires
        !v.listings.contains_key(asset),
    ensures
        purchase_outcome(v, taker, asset) == Err::<MarketView, MarketError>(MarketError::ListingNotOpen),
{
}

/// A sold listing is closed: a second purchase of the same asset is refused.
pub proof fn lemma_sold_is_terminal(v: MarketView, taker: u64, asset: u64, taker2: u64)
    requires
        purchase_outcome(v, taker, asset) is Ok,
    ensures
        purchase_outcome(purchase_outcome(v, taker, asset)->Ok_0, taker2, asset)
            == Err::<MarketView, MarketError>(MarketError::ListingNotOpen),
{
}

/// A withdrawn listing is closed: a purchase of the asset is refused.
pub proof fn lemma_withdrawn_is_terminal(v: MarketView, maker: u64, asset: u64, taker: u64)
    requires
        unlist_outcome(v, maker, asset) is Ok,
    ensures
        purchase_outcome(unlist_outcome(v, maker, asset)->Ok_0, taker, asset)
            == Err::<MarketView, MarketError>(MarketError::ListingNotOpen),
{
}

/// A purchase creates and destroys no currency: what the taker pays is what
/// the maker and the treasury receive, and every other balance is unchanged.
pub proof fn lemma_purchase_conserves_currency(v: MarketView, taker: u64, asset: u64, other: u64)
    requires
        purchase_outcome(v, taker, asset) is Ok,
        taker != v.listings[asset].maker,
        taker != v.treasury,
        v.listings[asset].maker != v.treasury,
        other != taker,
        other != v.listings[asset].maker,
        other != v.treasury,
    ensures
        ({
            let w = purchase_outcome(v, taker, asset)->Ok_0;
            let maker = v.listings[asset].maker;
            &&& balance_of(w.currency, taker) + balance_of(w.currency, maker) + balance_of(w.currency, v.treasury)
                == balance_of(v.currency, taker) + balance_of(v.currency, maker) + balance_of(v.currency, v.treasury)
            &&& balance_of(w.currency, taker) == balance_of(v.currency, taker) - v.listings[asset].price
            &&& balance_of(w.currency, other) == balance_of(v.currency, other)
        }),
{
}

/// A taker who cannot pay the price is refused, and the listing stays open.
pub proof fn lemma_insufficient_funds_keeps_listing(v: MarketView, taker: u64, asset: u64)
    requires
        purchase_outcome(v, taker, asset) == Err::<MarketView, MarketError>(MarketError::InsufficientFunds),
    ensures
        v.listings.contains_key(asset),
{
}

} // verus!
