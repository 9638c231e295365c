use rust_decimal::Decimal;
use std::str::FromStr;
use ten_ten_one::decimal::DecimalValue;
use ten_ten_one::routes::{
    apply_spread, checked_get_offer, get_offer, get_wallet_details, parse_remote_node_id, Quote, RouteError,
};

fn dec(s: &str) -> DecimalValue {
    let d = Decimal::from_str(s).unwrap();
    DecimalValue { mantissa: d.mantissa(), scale: d.scale() }
}

fn value(d: DecimalValue) -> Decimal {
    Decimal::from_i128_with_scale(d.mantissa, d.scale)
}

#[test]
fn offer_widens_quote_by_spread() {
    let quote = Quote { bid: dec("20000"), ask: dec("20010"), index: dec("20005.5") };
    let offer = get_offer(Some(quote), dec("0.003")).unwrap();
    assert_eq!(value(offer.bid), Decimal::from_str("19940").unwrap());
    assert_eq!(value(offer.ask), Decimal::from_str("20070.03").unwrap());
    assert_eq!(value(offer.index), Decimal::from_str("20005.5").unwrap());
}

#[test]
fn no_quote_is_not_found() {
    let r = get_offer(None, dec("0.003"));
    assert_eq!(r, Err(RouteError::NoQuote));
    assert_eq!(RouteError::NoQuote.status(), 404);
    assert_eq!(RouteError::NoQuote.title(), "No quotes found");
}

#[test]
fn overflowing_spread_has_no_offer() {
    let max = Decimal::MAX;
    let huge = DecimalValue { mantissa: max.mantissa(), scale: 0 };
    let quote = Quote { bid: huge, ask: huge, index: huge };
    assert_eq!(apply_spread(quote, dec("-2")), None);
    assert_eq!(checked_get_offer(Some(quote), dec("-2")), None);
    assert_eq!(checked_get_offer(None, dec("-2")), Some(Err(RouteError::NoQuote)));
    let small = Quote { bid: dec("1"), ask: dec("1"), index: dec("1") };
    assert!(matches!(checked_get_offer(Some(small), dec("0.5")), Some(Ok(_))));
}

#[test]
fn node_ids_are_parsed() {
    let g = "0279be667ef9dcbbac55a06295ce870b07029bfcdb2dce28d959f2815b16f81798";
    assert!(parse_remote_node_id(g).is_ok());
    assert_eq!(parse_remote_node_id("not a key").err(), Some(RouteError::InvalidNodeId));
    assert_eq!(RouteError::InvalidNodeId.status(), 400);
}

#[test]
fn wallet_details_answer_first_failure() {
    assert_eq!(get_wallet_details::<u8, u8, u8, &str>(Ok(1), Ok(2), Ok(3)), Ok((1, 2, 3)));
    assert_eq!(get_wallet_details::<u8, u8, u8, &str>(Err("b"), Err("a"), Ok(3)), Err((RouteError::BalanceFailed, "b")));
    assert_eq!(get_wallet_details::<u8, u8, u8, &str>(Ok(1), Err("a"), Err("n")), Err((RouteError::AddressFailed, "a")));
    assert_eq!(
        get_wallet_details::<u8, u8, u8, &str>(Ok(1), Ok(2), Err("n")),
        Err((RouteError::DetailsNodeInfoFailed, "n"))
    );
    assert_eq!(RouteError::BalanceFailed.title(), "Failed get new balance");
    assert_eq!(RouteError::DetailsNodeInfoFailed.title(), "Failed get new address");
    assert_eq!(RouteError::OpenChannelFailed.status(), 500);
    assert_eq!(RouteError::NodeInfoFailed.title(), "Failed to retrieve node info");
}
