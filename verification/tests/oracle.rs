use vaultix::{
    check_current_price_overflow, current_price, expected_price_feed, OraclePrice, PriceFeedData,
    MAX_PRICE_AGE,
};

fn feed(price: i64, publish_time: i64) -> PriceFeedData {
    PriceFeedData {
        id: [7u8; 32],
        price: OraclePrice { price, conf: 3, expo: -8, publish_time },
        ema_price: OraclePrice { price: 1, conf: 1, expo: -8, publish_time: 0 },
    }
}

#[test]
fn expected_price_feed_decodes_the_sol_usd_account() {
    let key = expected_price_feed().unwrap();
    assert_eq!(
        key.to_bytes(),
        [
            209, 169, 89, 91, 46, 18, 79, 206, 240, 200, 124, 67, 148, 181, 188, 241, 236, 150,
            119, 105, 43, 8, 83, 133, 241, 21, 146, 92, 21, 116, 229, 35,
        ]
    );
}

#[test]
fn current_price_accepts_prices_up_to_a_minute_old() {
    assert_eq!(MAX_PRICE_AGE, 60);
    assert_eq!(current_price(&feed(15_000_000_000, 1_000), 1_000), Some(15_000_000_000));
    assert_eq!(current_price(&feed(15_000_000_000, 1_000), 1_060), Some(15_000_000_000));
    assert_eq!(current_price(&feed(15_000_000_000, 1_000), 940), Some(15_000_000_000));
    assert_eq!(current_price(&feed(15_000_000_000, 1_000), 1_061), None);
    assert_eq!(current_price(&feed(15_000_000_000, 1_000), 939), None);
}

#[test]
fn current_price_wraps_a_negative_price() {
    assert_eq!(current_price(&feed(-1, 500), 500), Some(u64::MAX));
}

#[test]
fn current_price_overflow_is_detected() {
    assert!(!check_current_price_overflow(&feed(1, 1_000), 2_000));
    assert!(check_current_price_overflow(&feed(1, i64::MIN), 1));
    assert!(check_current_price_overflow(&feed(1, -1), i64::MAX));
    assert!(check_current_price_overflow(&feed(1, i64::MIN + 5), 5));
}
