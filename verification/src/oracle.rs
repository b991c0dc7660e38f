use vstd::prelude::*;

use anchor_lang::prelude::Pubkey as AddressKey;
use pyth_sdk_solana::{Price, PriceFeed, PriceIdentifier};

use crate::types::Pubkey;

verus! {

/// The largest gap, in seconds, between a price's publish time and now
/// for the price to be used.
pub const MAX_PRICE_AGE: u64 = 60;

/// A price as the oracle publishes it: `price * 10^expo`, give or take
/// `conf * 10^expo`, published at Unix time `publish_time`.
#[derive(Clone, Copy, Debug, PartialEq, Eq)]
pub struct OraclePrice {
    pub price: i64,
    pub conf: u64,
    pub expo: i32,
    pub publish_time: i64,
}

/// An oracle price feed: its identifier, its latest price and its moving
/// average price.
#[derive(Clone, Copy, Debug, PartialEq, Eq)]
pub struct PriceFeedData {
    pub id: [u8; 32],
    pub price: OraclePrice,
    pub ema_price: OraclePrice,
}

/// The 32 bytes that a base58 text decodes to, if it is a valid address.
pub uninterp spec fn base58_address(text: Seq<char>) -> Option<[u8; 32]>;

/// The absolute value of an integer.
pub open spec fn abs(x: int) -> int {
    if x < 0 {
        -x
    } else {
        x
    }
}

/// Parses a base58 address with `FromStr` for the address type that
/// anchor_lang re-exports. The result is named, not stated: it is the
/// decoding of `text`, and `None` where the text is not an address.
#[verifier::external_body]
fn parse_address(text: &str) -> (bytes: Option<[u8; 32]>)
    ensures
        bytes == base58_address(text@),
{
    match text.parse::<AddressKey>() {
        Ok(key) => Some(key.to_bytes()),
        Err(_) => None,
    }
}

/// The SOL/USD price account that liquidations must read, decoded from
/// its base58 address; `None` if the address does not decode.
pub fn expected_price_feed() -> (key: Option<Pubkey>)
    ensures
        key is None <==> base58_address("F7RyxQh3n1LDe5zHfjvE44aN7dXP3QWW3Gbn7b2ekVY6"@) is None,
        key matches Some(k) ==> base58_address(
            "F7RyxQh3n1LDe5zHfjvE44aN7dXP3QWW3Gbn7b2ekVY6"@,
        ) == Some(k.bytes),
{
    match parse_address("F7RyxQh3n1LDe5zHfjvE44aN7dXP3QWW3Gbn7b2ekVY6") {
        Some(bytes) => Some(Pubkey { bytes }),
        None => None,
    }
}

/// `PriceFeed::get_price_no_older_than` of pyth_sdk_solana on the feed:
/// the latest price if its publish time is at most `age` seconds away
/// from `current_time`, else `None`. The difference of the two times must
/// fit in `i64` and have an absolute value that does too.
#[verifier::external_body]
fn price_no_older_than(feed: &PriceFeedData, current_time: i64, age: u64) -> (price: Option<
    OraclePrice,
>)
    requires
        i64::MIN < feed.price.publish_time - current_time <= i64::MAX,
    ensures
        price == (if abs(feed.price.publish_time - current_time) <= age {
            Some(feed.price)
        } else {
            None
        }),
{
    let (p, e) = (feed.price, feed.ema_price);
    let pyth_feed = PriceFeed::new(
        PriceIdentifier::new(feed.id),
        Price { price: p.price, conf: p.conf, expo: p.expo, publish_time: p.publish_time },
        Price { price: e.price, conf: e.conf, expo: e.expo, publish_time: e.publish_time },
    );
    match pyth_feed.get_price_no_older_than(current_time, age) {
        Some(q) => Some(
            OraclePrice { price: q.price, conf: q.conf, expo: q.expo, publish_time: q.publish_time },
        ),
        None => None,
    }
}

/// The feed's latest price as an unsigned number (a negative price wraps
/// around), if it was published at most `MAX_PRICE_AGE` seconds from `now`.
pub fn current_price(feed: &PriceFeedData, now: i64) -> (price: Option<u64>)
    requires
        i64::MIN < feed.price.publish_time - now <= i64::MAX,
    ensures
        price == (if abs(feed.price.publish_time - now) <= MAX_PRICE_AGE {
            Some(feed.price.price as u64)
        } else {
            None
        }),
        price is Some <==> now - 60 <= feed.price.publish_time <= now + 60,
        price matches Some(p) ==> p == feed.price.price as u64,
{
    match price_no_older_than(feed, now, MAX_PRICE_AGE) {
        Some(p) => Some(#[verifier::truncate] (p.price as u64)),
        None => None,
    }
}

/// Whether `current_price` would overflow on the time difference.
pub fn check_current_price_overflow(feed: &PriceFeedData, now: i64) -> (overflows: bool)
    ensures
        overflows == !(i64::MIN < feed.price.publish_time - now <= i64::MAX),
{
    match feed.price.publish_time.checked_sub(now) {
        Some(d) => d == i64::MIN,
        None => true,
    }
}

} // verus!
