use std::str::FromStr;

use eaglemode::record::{Record, RecStruct, RecValue};
use eaglemode::stocks::{Interest, StockRec};

#[test]
fn interest_from_str_canonical() {
    assert_eq!(Interest::from_str("HIGH"), Ok(Interest::High));
    assert_eq!(Interest::from_str("MEDIUM"), Ok(Interest::Medium));
    assert_eq!(Interest::from_str("LOW"), Ok(Interest::Low));
}

#[test]
fn interest_from_str_deprecated_with_bug() {
    assert_eq!(
        Interest::from_deprecated_bugged("LOW_INTEREST"),
        Interest::High
    );
    assert_eq!(
        Interest::from_deprecated_bugged("HIGH_INTEREST"),
        Interest::Low
    );
    assert_eq!(
        Interest::from_deprecated_bugged("MEDIUM_INTEREST"),
        Interest::Medium
    );
}

#[test]
fn interest_from_str_deprecated_no_bug() {
    assert_eq!(
        Interest::from_deprecated_normal("LOW_INTEREST"),
        Interest::Low
    );
    assert_eq!(
        Interest::from_deprecated_normal("HIGH_INTEREST"),
        Interest::High
    );
}

#[test]
fn interest_display() {
    assert_eq!(Interest::High.to_string(), "HIGH");
    assert_eq!(Interest::Medium.to_string(), "MEDIUM");
    assert_eq!(Interest::Low.to_string(), "LOW");
}

#[test]
fn stock_rec_default() {
    let rec = StockRec::default();
    assert_eq!(rec.id, "");
    assert_eq!(rec.interest, Interest::Medium);
    assert!(rec.web_pages.is_empty());
}

#[test]
fn stock_rec_record_round_trip() {
    let mut rec = StockRec::default();
    rec.id = "42".to_string();
    rec.name = "Test Stock".to_string();
    rec.symbol = "TST".to_string();
    rec.interest = Interest::High;
    rec.web_pages = vec!["https://example.com".to_string()];

    let serialized = rec.to_rec();
    let deserialized = StockRec::from_rec(&serialized).ok().unwrap();

    assert_eq!(deserialized.id, "42");
    assert_eq!(deserialized.name, "Test Stock");
    assert_eq!(deserialized.symbol, "TST");
    assert_eq!(deserialized.interest, Interest::High);
    assert_eq!(deserialized.web_pages, vec!["https://example.com"]);
}

#[test]
fn interest_from_str_rejects_other_text() {
    assert_eq!(
        Interest::from_str("high"),
        Err("unknown interest: high".to_string())
    );
    assert_eq!(
        Interest::from_str(""),
        Err("unknown interest: ".to_string())
    );
}

#[test]
fn interest_deprecated_case_insensitive() {
    assert_eq!(Interest::from_deprecated_bugged("low_interest"), Interest::High);
    assert_eq!(Interest::from_deprecated_normal("High_Interest"), Interest::High);
    assert_eq!(Interest::from_deprecated_normal("LOW"), Interest::Medium);
    assert_eq!(Interest::from_deprecated_bugged("whatever"), Interest::Medium);
}

#[test]
fn interest_default_is_medium() {
    assert_eq!(Interest::default(), Interest::Medium);
}

#[test]
fn interest_from_rec_ident_prefers_canonical_names() {
    assert_eq!(Interest::from_rec_ident("high"), Interest::High);
    assert_eq!(Interest::from_rec_ident("Low"), Interest::Low);
    assert_eq!(Interest::from_rec_ident("medium"), Interest::Medium);
    assert_eq!(Interest::from_rec_ident("low_interest"), Interest::High);
    assert_eq!(Interest::from_rec_ident("high_interest"), Interest::Low);
    assert_eq!(Interest::from_rec_ident("unknown"), Interest::Medium);
}

#[test]
fn stock_rec_from_rec_defaults_and_skips() {
    let mut rec = RecStruct::new();
    rec.set_str("Name", "Acme");
    rec.set_bool("OwningShares", true);
    rec.set_ident("Interest", "LOW_INTEREST");
    rec.SetValue(
        "WebPages",
        RecValue::Array(vec![
            RecValue::Str("a".to_string()),
            RecValue::Bool(true),
            RecValue::Str("b".to_string()),
        ]),
    );
    rec.set_bool("Id", true);
    let s = StockRec::from_rec(&rec).ok().unwrap();
    assert_eq!(s.name, "Acme");
    assert_eq!(s.id, "");
    assert!(s.owning_shares);
    assert_eq!(s.interest, Interest::High);
    assert_eq!(s.web_pages, vec!["a".to_string(), "b".to_string()]);
}

#[test]
fn stock_rec_full_round_trip_and_equality() {
    let mut rec = StockRec::default();
    rec.wkn = "123456".to_string();
    rec.isin = "DE0001".to_string();
    rec.owning_shares = true;
    rec.trade_price = "12.5".to_string();
    rec.interest = Interest::Low;
    rec.web_pages = vec!["x".to_string(), "y".to_string()];
    let back = StockRec::from_rec(&rec.to_rec()).ok().unwrap();
    assert!(back == rec);
    let copy = rec.clone();
    assert!(copy == rec);
    let mut other = rec.clone();
    other.web_pages.push("z".to_string());
    assert!(other != rec);
}

#[test]
fn stock_rec_to_rec_members() {
    let mut rec = StockRec::default();
    rec.comment = "note".to_string();
    let r = rec.to_rec();
    assert_eq!(r.get_str("Comment"), Some("note"));
    assert_eq!(r.get_str("Id"), Some(""));
    assert_eq!(r.get_ident("Interest"), Some("MEDIUM"));
    assert_eq!(r.get_bool("OwningShares"), Some(false));
    assert_eq!(r.get_array("WebPages").map(|a| a.len()), Some(0));
    assert_eq!(r.get_str("Missing"), None);
}

#[test]
fn stock_rec_set_to_default() {
    let mut rec = StockRec::default();
    assert!(rec.IsSetToDefault());
    rec.symbol = "X".to_string();
    assert!(!rec.IsSetToDefault());
    rec.SetToDefault();
    assert!(rec.IsSetToDefault());
    let _ = rec.LinkCrossPtr();
}

#[test]
fn rec_struct_set_replaces() {
    let mut rec = RecStruct::new();
    rec.set_str("A", "1");
    rec.set_str("A", "2");
    assert_eq!(rec.get_str("A"), Some("2"));
    rec.set_bool("A", false);
    assert_eq!(rec.get_str("A"), None);
    assert_eq!(rec.get_bool("A"), Some(false));
    assert!(rec.GetValue("B").is_none());
}
