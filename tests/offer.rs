use indexer::asset::{parse_asset_from_value, Asset, ParseError};
use indexer::horizon::{HorizonOffer, HorizonPriceR};
use indexer::offer::{Offer, OfferError};

const ISSUER: &str = "GA5ZSEJYB37JRC5AVCIA5MOP4RHTM335X2KGX3IHOJAPP5RE34K4KZVN";

fn json(text: &str) -> serde_json::Value {
    serde_json::from_str(text).unwrap()
}

fn create_test_horizon_offer() -> HorizonOffer {
    HorizonOffer {
        id: "12345".to_string(),
        paging_token: Some("token123".to_string()),
        seller: ISSUER.to_string(),
        selling: json(r#"{"asset_type": "native"}"#),
        buying: json(
            r#"{"asset_type": "credit_alphanum4", "asset_code": "USDC",
                "asset_issuer": "GA5ZSEJYB37JRC5AVCIA5MOP4RHTM335X2KGX3IHOJAPP5RE34K4KZVN"}"#,
        ),
        amount: "100.0".to_string(),
        price: "1.5".to_string(),
        price_r: Some(HorizonPriceR { n: 3, d: 2 }),
        last_modified_ledger: 12345,
    }
}

#[test]
fn test_offer_from_horizon_offer() {
    let horizon_offer = create_test_horizon_offer();
    let offer = Offer::try_from(horizon_offer).unwrap();

    assert_eq!(offer.id, 12345);
    assert_eq!(offer.amount, "100.0");
    assert_eq!(offer.price, "1.5");
    assert_eq!(offer.price_n, 3);
    assert_eq!(offer.price_d, 2);
    assert_eq!(offer.last_modified_ledger, 12345);
    assert!(matches!(offer.selling, Asset::Native));
    assert!(matches!(offer.buying, Asset::CreditAlphanum4 { .. }));
}

#[test]
fn test_offer_invalid_id() {
    let mut horizon_offer = create_test_horizon_offer();
    horizon_offer.id = "invalid".to_string();

    let result = Offer::try_from(horizon_offer);
    assert!(result.is_err());
}

#[test]
fn test_parse_asset_native() {
    let json = json(r#"{"asset_type": "native"}"#);
    let asset = parse_asset_from_value(&json).unwrap();
    assert!(matches!(asset, Asset::Native));
}

#[test]
fn test_parse_asset_credit_alphanum4() {
    let json = json(
        r#"{"asset_type": "credit_alphanum4", "asset_code": "USDC",
            "asset_issuer": "GA5ZSEJYB37JRC5AVCIA5MOP4RHTM335X2KGX3IHOJAPP5RE34K4KZVN"}"#,
    );
    let asset = parse_asset_from_value(&json).unwrap();
    match asset {
        Asset::CreditAlphanum4 {
            asset_code,
            asset_issuer,
        } => {
            assert_eq!(asset_code, "USDC");
            assert_eq!(
                asset_issuer,
                "GA5ZSEJYB37JRC5AVCIA5MOP4RHTM335X2KGX3IHOJAPP5RE34K4KZVN"
            );
        }
        _ => panic!("Expected CreditAlphanum4"),
    }
}

#[test]
fn from_raw_full_record() {
    let offer = Offer::from_raw(create_test_horizon_offer()).unwrap();
    assert_eq!(offer.id, 12345);
    assert_eq!(offer.seller, ISSUER);
    assert_eq!(offer.selling, Asset::Native);
    assert_eq!(
        offer.buying,
        Asset::CreditAlphanum4 {
            asset_code: "USDC".to_string(),
            asset_issuer: ISSUER.to_string()
        }
    );
    assert_eq!(offer.price_n, 3);
    assert_eq!(offer.price_d, 2);
    assert_eq!(offer.last_modified_ledger, 12345);
    assert!(offer.last_modified_time.is_none());
    assert!(offer.validate().is_ok());
}

#[test]
fn from_raw_invalid_id_carries_raw_id() {
    let mut r = create_test_horizon_offer();
    r.id = "invalid".to_string();
    match Offer::from_raw(r) {
        Err(OfferError::InvalidId(id)) => assert_eq!(id, "invalid"),
        other => panic!("unexpected {:?}", other),
    }
}

#[test]
fn from_raw_id_out_of_range() {
    let mut r = create_test_horizon_offer();
    r.id = "18446744073709551616".to_string();
    assert!(matches!(Offer::from_raw(r), Err(OfferError::InvalidId(_))));
    let mut r = create_test_horizon_offer();
    r.id = "18446744073709551615".to_string();
    assert_eq!(Offer::from_raw(r).unwrap().id, u64::MAX);
    let mut r = create_test_horizon_offer();
    r.id = "+7".to_string();
    assert_eq!(Offer::from_raw(r).unwrap().id, 7);
    let mut r = create_test_horizon_offer();
    r.id = "".to_string();
    assert!(matches!(Offer::from_raw(r), Err(OfferError::InvalidId(_))));
}

#[test]
fn from_raw_negative_amount() {
    let mut r = create_test_horizon_offer();
    r.amount = "-5.0".to_string();
    match Offer::from_raw(r) {
        Err(OfferError::InvalidAmount(a)) => assert_eq!(a, "-5.0"),
        other => panic!("unexpected {:?}", other),
    }
}

#[test]
fn from_raw_malformed_and_zero_amounts() {
    for bad in ["", "abc", "1.2.3", "0", "0.000", "+0.0", "1e5"] {
        let mut r = create_test_horizon_offer();
        r.amount = bad.to_string();
        assert!(
            matches!(Offer::from_raw(r), Err(OfferError::InvalidAmount(_))),
            "{bad}"
        );
    }
    for good in ["0.0000001", ".5", "7.", "+3", "100"] {
        let mut r = create_test_horizon_offer();
        r.amount = good.to_string();
        assert!(Offer::from_raw(r).is_ok(), "{good}");
    }
}

#[test]
fn from_raw_bad_price() {
    let mut r = create_test_horizon_offer();
    r.price = "0".to_string();
    assert!(matches!(Offer::from_raw(r), Err(OfferError::InvalidPrice(_))));
}

#[test]
fn from_raw_bad_seller() {
    let mut r = create_test_horizon_offer();
    r.seller = "XA5ZSEJYB37JRC5AVCIA5MOP4RHTM335X2KGX3IHOJAPP5RE34K4KZVN".to_string();
    assert!(matches!(Offer::from_raw(r), Err(OfferError::InvalidSeller(_))));
    let mut r = create_test_horizon_offer();
    r.seller = "GA5Z".to_string();
    assert!(matches!(Offer::from_raw(r), Err(OfferError::InvalidSeller(_))));
}

#[test]
fn from_raw_seller_checked_before_amount() {
    let mut r = create_test_horizon_offer();
    r.seller = "G".to_string();
    r.amount = "-1".to_string();
    assert!(matches!(Offer::from_raw(r), Err(OfferError::InvalidSeller(_))));
}

#[test]
fn from_raw_zero_denominator() {
    let mut r = create_test_horizon_offer();
    r.price_r = Some(HorizonPriceR { n: 3, d: 0 });
    assert!(matches!(Offer::from_raw(r), Err(OfferError::ZeroDenominator)));
}

#[test]
fn from_raw_ratio_absent_defaults() {
    let mut r = create_test_horizon_offer();
    r.price_r = None;
    let offer = Offer::from_raw(r).unwrap();
    assert_eq!((offer.price_n, offer.price_d), (0, 1));
}

#[test]
fn from_raw_ratio_truncated() {
    let mut r = create_test_horizon_offer();
    r.price_r = Some(HorizonPriceR {
        n: (1i64 << 32) + 3,
        d: (1i64 << 33) + 2,
    });
    let offer = Offer::from_raw(r).unwrap();
    assert_eq!((offer.price_n, offer.price_d), (3, 2));
}

#[test]
fn from_raw_same_asset() {
    let mut r = create_test_horizon_offer();
    r.selling = json(
        r#"{"asset_type": "credit_alphanum4", "asset_code": "USDC",
            "asset_issuer": "GA5ZSEJYB37JRC5AVCIA5MOP4RHTM335X2KGX3IHOJAPP5RE34K4KZVN"}"#,
    );
    assert!(matches!(Offer::from_raw(r), Err(OfferError::SameAsset)));
    let mut r = create_test_horizon_offer();
    r.buying = json(r#"{"asset_type": "native"}"#);
    assert!(matches!(Offer::from_raw(r), Err(OfferError::SameAsset)));
}

#[test]
fn from_raw_same_code_other_variant_is_distinct() {
    let mut r = create_test_horizon_offer();
    r.selling = json(
        r#"{"asset_type": "credit_alphanum12", "asset_code": "USDC",
            "asset_issuer": "GA5ZSEJYB37JRC5AVCIA5MOP4RHTM335X2KGX3IHOJAPP5RE34K4KZVN"}"#,
    );
    assert!(Offer::from_raw(r).is_ok());
}

#[test]
fn from_raw_invalid_asset() {
    let mut r = create_test_horizon_offer();
    r.buying = json(r#"{"asset_type": "liquidity_pool_shares"}"#);
    match Offer::from_raw(r) {
        Err(OfferError::InvalidAsset(ParseError::UnknownAssetType(t))) => {
            assert_eq!(t, "liquidity_pool_shares")
        }
        other => panic!("unexpected {:?}", other),
    }
}

#[test]
fn from_raw_twice_gives_equal_offers() {
    let a = Offer::from_raw(create_test_horizon_offer()).unwrap();
    let b = Offer::from_raw(create_test_horizon_offer()).unwrap();
    assert_eq!(a.id, b.id);
    assert_eq!(a.seller, b.seller);
    assert_eq!(a.selling, b.selling);
    assert_eq!(a.buying, b.buying);
    assert_eq!(a.amount, b.amount);
    assert_eq!(a.price, b.price);
    assert_eq!((a.price_n, a.price_d), (b.price_n, b.price_d));
    assert_eq!(a.last_modified_ledger, b.last_modified_ledger);
    assert_eq!(a.last_modified_time, b.last_modified_time);
    assert!(a.last_modified_time.is_none());
}

#[test]
fn validate_reports_same_asset() {
    let mut offer = Offer::from_raw(create_test_horizon_offer()).unwrap();
    offer.buying = Asset::Native;
    assert!(matches!(offer.validate(), Err(OfferError::SameAsset)));
}
