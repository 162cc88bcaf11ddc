use anchor_lang::prelude::Pubkey;
use nftaas_marketplace::derive::{listing_address, marketplace_address, treasury_address};
use nftaas_marketplace::fee::{compute_fee, split_payment};
use nftaas_marketplace::market::{is_unique_issue, InitTokenParams, Listing, Market, MarketError};
use nftaas_marketplace::registry::{valid_name, Marketplace, Registry};

const MAKER: u64 = 1;
const TAKER: u64 = 2;
const TREASURY: u64 = 99;
const ASSET: u64 = 7;
const PROGRAM: [u8; 32] = [7u8; 32];

fn params(decimals: u8) -> InitTokenParams {
    InitTokenParams {
        name: "Token".to_string(),
        symbol: "TKN".to_string(),
        uri: "https://example.com/t.json".to_string(),
        decimals,
    }
}

fn market(fee: u16) -> Market {
    let mut reg = Registry::new(PROGRAM);
    let i = reg.initialize(5, b"shop".to_vec(), fee).unwrap();
    Market::new(reg.get(i).clone(), PROGRAM, TREASURY).unwrap()
}

fn listing_bump(m: &Market, asset: u64) -> u8 {
    listing_address(&PROGRAM, &m.address(), asset).unwrap().1
}

fn listed_market(fee: u16, price: u64) -> Market {
    let mut m = market(fee);
    m.mint_nft(MAKER, ASSET, params(0), 1).unwrap();
    m.list(MAKER, ASSET, price).unwrap();
    m
}

#[test]
fn fee_scenario_round_price() {
    assert_eq!(split_payment(10_000, 250), Some((250, 9_750)));
}

#[test]
fn fee_scenario_floor_rounding() {
    assert_eq!(split_payment(9_999, 250), Some((249, 9_750)));
}

#[test]
fn fee_overflow_is_none() {
    assert_eq!(compute_fee(u64::MAX, 2), None);
    assert_eq!(split_payment(u64::MAX, 2), None);
}

#[test]
fn fee_above_whole_is_refused() {
    assert_eq!(compute_fee(100, 20_000), Some(200));
    assert_eq!(split_payment(100, 20_000), None);
}

#[test]
fn fee_parts_add_up() {
    for price in [0u64, 1, 3, 9_999, 10_000, 123_456_789] {
        for bps in [0u16, 1, 250, 9_999, 10_000] {
            let (fee, to_maker) = split_payment(price, bps).unwrap();
            assert_eq!(fee + to_maker, price);
        }
    }
}

#[test]
fn fee_monotonic_in_price() {
    let mut last = 0;
    for price in 0u64..2_000 {
        let fee = compute_fee(price, 333).unwrap();
        assert!(fee >= last);
        last = fee;
    }
}

#[test]
fn name_length_bounds() {
    assert!(!valid_name(&Vec::new()));
    assert!(valid_name(&vec![b'a'; 1]));
    assert!(valid_name(&vec![b'a'; 32]));
    assert!(!valid_name(&vec![b'a'; 33]));
}

#[test]
fn initialize_rejects_bad_names() {
    let mut reg = Registry::new(PROGRAM);
    assert_eq!(reg.initialize(5, Vec::new(), 250), Err(MarketError::NameTooLong));
    assert_eq!(reg.initialize(5, vec![b'x'; 33], 250), Err(MarketError::NameTooLong));
    assert_eq!(reg.initialize(5, vec![b'x'; 32], 250), Ok(0));
    assert_eq!(reg.len(), 1);
    assert_eq!(Marketplace::init(5, vec![b'x'; 40], 250, 1, 2).err(), Some(MarketError::NameTooLong));
}

#[test]
fn initialize_twice_conflicts() {
    let mut reg = Registry::new(PROGRAM);
    assert_eq!(reg.initialize(5, b"shop".to_vec(), 250), Ok(0));
    assert_eq!(reg.initialize(6, b"shop".to_vec(), 100), Err(MarketError::AlreadyExists));
    assert_eq!(reg.initialize(6, b"shop2".to_vec(), 100), Ok(1));
    assert_eq!(reg.len(), 2);
    assert_eq!(reg.find(&b"shop2".to_vec()), Some(1));
    assert_eq!(reg.find(&b"other".to_vec()), None);
    let first = reg.get(0);
    assert_eq!(first.admin, 5);
    assert_eq!(first.fee, 250);
    let (address, bump) = marketplace_address(&PROGRAM, &b"shop".to_vec()).unwrap();
    assert_eq!(first.bump, bump);
    assert_eq!(first.treasury_bump, treasury_address(&PROGRAM, &address).unwrap().1);
    assert_eq!(reg.program_id(), PROGRAM);
}

#[test]
fn purchase_settles_payment() {
    let mut m = listed_market(250, 10_000);
    m.deposit(TAKER, 15_000).unwrap();
    assert_eq!(m.purchase(TAKER, ASSET), Ok(()));
    assert_eq!(m.balance(TAKER), 5_000);
    assert_eq!(m.balance(MAKER), 9_750);
    assert_eq!(m.balance(TREASURY), 250);
    assert_eq!(m.holder(ASSET), Some(TAKER));
    assert_eq!(m.listing(ASSET), None);
}

#[test]
fn purchase_with_insufficient_funds() {
    let mut m = listed_market(250, 10_000);
    m.deposit(TAKER, 9_999).unwrap();
    assert_eq!(m.purchase(TAKER, ASSET), Err(MarketError::InsufficientFunds));
    assert_eq!(m.balance(TAKER), 9_999);
    assert_eq!(m.balance(MAKER), 0);
    assert_eq!(m.balance(TREASURY), 0);
    assert_eq!(m.listing(ASSET), Some(Listing { maker: MAKER, price: 10_000, bump: listing_bump(&m, ASSET) }));
    assert_eq!(m.holder(ASSET), None);
}

#[test]
fn purchase_without_listing() {
    let mut m = market(250);
    m.mint_nft(MAKER, ASSET, params(0), 1).unwrap();
    m.deposit(TAKER, 50_000).unwrap();
    assert_eq!(m.purchase(TAKER, ASSET), Err(MarketError::ListingNotOpen));
    assert_eq!(m.balance(TAKER), 50_000);
    assert_eq!(m.holder(ASSET), Some(MAKER));
}

#[test]
fn second_purchase_fails() {
    let mut m = listed_market(250, 10_000);
    m.deposit(TAKER, 30_000).unwrap();
    m.purchase(TAKER, ASSET).unwrap();
    m.deposit(3, 30_000).unwrap();
    assert_eq!(m.purchase(3, ASSET), Err(MarketError::ListingNotOpen));
    assert_eq!(m.balance(3), 30_000);
}

#[test]
fn purchase_fee_overflow() {
    let mut m = listed_market(10_000, u64::MAX);
    m.deposit(TAKER, u64::MAX).unwrap();
    assert_eq!(m.purchase(TAKER, ASSET), Err(MarketError::ArithmeticOverflow));
    assert!(m.listing(ASSET).is_some());
}

#[test]
fn purchase_credit_overflow() {
    let mut m = listed_market(0, 10);
    m.deposit(TAKER, 10).unwrap();
    m.deposit(MAKER, u64::MAX - 5).unwrap();
    assert_eq!(m.purchase(TAKER, ASSET), Err(MarketError::ArithmeticOverflow));
    assert_eq!(m.balance(TAKER), 10);
    assert_eq!(m.balance(MAKER), u64::MAX - 5);
}

#[test]
fn maker_buys_own_listing() {
    let mut m = listed_market(250, 10_000);
    m.deposit(MAKER, 10_000).unwrap();
    assert_eq!(m.purchase(MAKER, ASSET), Ok(()));
    assert_eq!(m.balance(MAKER), 9_750);
    assert_eq!(m.balance(TREASURY), 250);
    assert_eq!(m.holder(ASSET), Some(MAKER));
}

#[test]
fn list_then_unlist_restores_balances() {
    let mut m = market(250);
    m.mint_nft(MAKER, ASSET, params(0), 1).unwrap();
    m.deposit(MAKER, 1_234).unwrap();
    m.list(MAKER, ASSET, 500).unwrap();
    assert_eq!(m.holder(ASSET), None);
    assert_eq!(m.unlist(MAKER, ASSET), Ok(()));
    assert_eq!(m.holder(ASSET), Some(MAKER));
    assert_eq!(m.balance(MAKER), 1_234);
    assert_eq!(m.listing(ASSET), None);
}

#[test]
fn second_list_conflicts() {
    let mut m = listed_market(250, 10_000);
    assert_eq!(m.list(MAKER, ASSET, 20_000), Err(MarketError::AlreadyExists));
    assert_eq!(m.list(TAKER, ASSET, 5), Err(MarketError::AlreadyExists));
    assert_eq!(m.listing(ASSET), Some(Listing { maker: MAKER, price: 10_000, bump: listing_bump(&m, ASSET) }));
}

#[test]
fn list_errors() {
    let mut m = market(250);
    m.mint_nft(MAKER, ASSET, params(0), 1).unwrap();
    assert_eq!(m.list(MAKER, ASSET, 0), Err(MarketError::InvalidPrice));
    assert_eq!(m.list(TAKER, ASSET, 10), Err(MarketError::NotAssetOwner));
    assert_eq!(m.list(MAKER, 8, 10), Err(MarketError::NotAssetOwner));
    assert_eq!(m.holder(ASSET), Some(MAKER));
}

#[test]
fn unlist_errors() {
    let mut m = listed_market(250, 10_000);
    assert_eq!(m.unlist(TAKER, ASSET), Err(MarketError::NotMaker));
    assert_eq!(m.unlist(MAKER, 8), Err(MarketError::ListingNotOpen));
    m.unlist(MAKER, ASSET).unwrap();
    assert_eq!(m.unlist(MAKER, ASSET), Err(MarketError::ListingNotOpen));
}

#[test]
fn mint_errors() {
    let mut m = market(250);
    assert_eq!(m.mint_nft(MAKER, ASSET, params(0), 2), Err(MarketError::NotUnique));
    assert_eq!(m.mint_nft(MAKER, ASSET, params(6), 1), Err(MarketError::NotUnique));
    assert_eq!(m.holder(ASSET), None);
    assert_eq!(m.mint_nft(MAKER, ASSET, params(0), 1), Ok(()));
    assert_eq!(m.mint_nft(TAKER, ASSET, params(0), 1), Err(MarketError::AlreadyExists));
    assert_eq!(m.holder(ASSET), Some(MAKER));
}

#[test]
fn deposit_overflow() {
    let mut m = market(250);
    assert_eq!(m.deposit(TAKER, u64::MAX), Ok(()));
    assert_eq!(m.deposit(TAKER, 1), Err(MarketError::ArithmeticOverflow));
    assert_eq!(m.balance(TAKER), u64::MAX);
    assert_eq!(m.fee(), 250);
}

#[test]
fn marketplace_address_matches_runtime() {
    let (address, bump) = marketplace_address(&PROGRAM, &b"shop".to_vec()).unwrap();
    let (key, key_bump) = Pubkey::find_program_address(&[b"marketplace", b"shop"], &Pubkey::new_from_array(PROGRAM));
    assert_eq!(address, key.to_bytes());
    assert_eq!(bump, key_bump);
    assert_ne!(address, PROGRAM);
}

#[test]
fn treasury_and_listing_addresses_match_runtime() {
    let (market, _) = marketplace_address(&PROGRAM, &b"shop".to_vec()).unwrap();
    let program = Pubkey::new_from_array(PROGRAM);
    let (treasury, treasury_bump) = treasury_address(&PROGRAM, &market).unwrap();
    let (key, key_bump) = Pubkey::find_program_address(&[b"treasury", &market], &program);
    assert_eq!((treasury, treasury_bump), (key.to_bytes(), key_bump));
    let (listing, listing_bump) = listing_address(&PROGRAM, &market, ASSET).unwrap();
    let (key, key_bump) = Pubkey::find_program_address(&[&market, &ASSET.to_le_bytes()], &program);
    assert_eq!((listing, listing_bump), (key.to_bytes(), key_bump));
    assert_ne!(listing_address(&PROGRAM, &market, ASSET + 1).unwrap().0, listing);
}

#[test]
fn market_address_is_derived_from_name() {
    let m = market(250);
    assert_eq!(m.address(), marketplace_address(&PROGRAM, &b"shop".to_vec()).unwrap().0);
}

#[test]
fn market_rejects_wrong_bump() {
    let (_, bump) = marketplace_address(&PROGRAM, &b"shop".to_vec()).unwrap();
    let mp = Marketplace::init(5, b"shop".to_vec(), 250, bump.wrapping_add(1), 0).unwrap();
    assert_eq!(Market::new(mp, PROGRAM, TREASURY).err(), Some(MarketError::AddressMismatch));
}

#[test]
fn unique_issue_rule() {
    assert!(is_unique_issue(0, 1));
    assert!(!is_unique_issue(0, 0));
    assert!(!is_unique_issue(0, 2));
    assert!(!is_unique_issue(9, 1));
}

#[test]
fn sold_asset_can_be_relisted_by_taker() {
    let mut m = listed_market(250, 10_000);
    m.deposit(TAKER, 10_000).unwrap();
    m.purchase(TAKER, ASSET).unwrap();
    assert_eq!(m.list(MAKER, ASSET, 5), Err(MarketError::NotAssetOwner));
    assert_eq!(m.list(TAKER, ASSET, 12_000), Ok(()));
    assert_eq!(m.listing(ASSET).map(|l| l.maker), Some(TAKER));
}
