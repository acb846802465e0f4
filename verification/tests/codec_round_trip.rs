//! Round-trip behaviour of the wire codec on concrete values.

use paypal_rest::codec::{DecodeError, WireCodec};
use paypal_rest::common::{Address, Currency, ItemUpc, LinkDescription, Money, ShipmentCarrier};
use paypal_rest::json::JsonValue;
use paypal_rest::orders::{Amount, Breakdown, InvoiceNumber, Item, ItemCategoryType, OrderStatus, Payee, PayerName, PhoneNumber};

fn obj(fields: Vec<(&str, JsonValue)>) -> JsonValue {
    JsonValue::Object(fields.into_iter().map(|(k, v)| (k.to_string(), v)).collect())
}

fn s(text: &str) -> JsonValue {
    JsonValue::Str(text.to_string())
}

#[test]
fn money_round_trips() {
    let m = Money {
        currency_code: Currency::EUR,
        value: "12.34".to_string(),
    };
    let doc = m.encode();
    let back = Money::decode(&doc).unwrap();
    assert_eq!(back, m);
}

#[test]
fn money_decodes_from_a_plain_document() {
    let doc = obj(vec![("currency_code", s("USD")), ("value", s("7"))]);
    let m = Money::decode(&doc).unwrap();
    assert_eq!(m.currency_code, Currency::USD);
    assert_eq!(m.value, "7");
}

#[test]
fn money_value_text_survives_unchanged() {
    for v in ["19.99", "10.00", "0.001", "1000000"] {
        let m = Money {
            currency_code: Currency::USD,
            value: v.to_string(),
        };
        let back = Money::decode(&m.encode()).unwrap();
        assert_eq!(back.value, v);
    }
}

#[test]
fn amount_with_breakdown_round_trips() {
    let a = Amount {
        currency_code: Currency::GBP,
        value: "30.00".to_string(),
        breakdown: Some(Breakdown {
            item_total: Some(Money {
                currency_code: Currency::GBP,
                value: "25.00".to_string(),
            }),
            shipping: Some(Money {
                currency_code: Currency::GBP,
                value: "5.00".to_string(),
            }),
            handling: None,
            tax_total: None,
            insurance: None,
            shipping_discount: None,
            discount: None,
        }),
    };
    let back = Amount::decode(&a.encode()).unwrap();
    assert_eq!(back, a);
}

#[test]
fn amount_constructors_fill_required_fields() {
    let a = Amount::new(Currency::CHF, "9.50");
    assert_eq!(a.currency_code, Currency::CHF);
    assert_eq!(a.value, "9.50");
    assert!(a.breakdown.is_none());
    let e = Amount::eur("1.00");
    assert_eq!(e.currency_code, Currency::EUR);
    assert_eq!(e.value, "1.00");
    let u = Amount::usd("2.00");
    assert_eq!(u.currency_code, Currency::USD);
    assert_eq!(u.value, "2.00");
}

#[test]
fn item_round_trips() {
    let item = Item {
        name: "widget".to_string(),
        quantity: "2".to_string(),
        description: Some("a widget".to_string()),
        sku: None,
        url: None,
        category: Some(ItemCategoryType::PhysicalGoods),
        image_url: None,
        unit_amount: Money {
            currency_code: Currency::USD,
            value: "3.50".to_string(),
        },
        tax: None,
        upc: Some(ItemUpc {
            upc_type: "UPC-A".to_string(),
            code: "123456789012".to_string(),
        }),
    };
    let back = Item::decode(&item.encode()).unwrap();
    assert_eq!(back, item);
}

#[test]
fn address_round_trips() {
    let a = Address {
        address_line_1: Some("1 Main St".to_string()),
        address_line_2: None,
        admin_area_2: Some("Springfield".to_string()),
        admin_area_1: None,
        postal_code: Some("12345".to_string()),
        country_code: "US".to_string(),
    };
    let back = Address::decode(&a.encode()).unwrap();
    assert_eq!(back, a);
}

#[test]
fn link_description_round_trips() {
    let l = LinkDescription {
        href: "https://api.example.com/v2/invoicing/invoices/INV-1".to_string(),
        rel: "self".to_string(),
        method: Some("GET".to_string()),
    };
    let back = LinkDescription::decode(&l.encode()).unwrap();
    assert_eq!(back, l);
}

#[test]
fn small_structs_round_trip() {
    let n = PayerName {
        given_name: "Ada".to_string(),
        surname: "Lovelace".to_string(),
    };
    assert_eq!(PayerName::decode(&n.encode()).unwrap(), n);
    let p = PhoneNumber {
        country_code: None,
        national_number: "5551234567".to_string(),
    };
    assert_eq!(PhoneNumber::decode(&p.encode()).unwrap(), p);
    let payee = Payee {
        email_address: Some("merchant@example.com".to_string()),
        merchant_id: None,
    };
    assert_eq!(Payee::decode(&payee.encode()).unwrap(), payee);
    let i = InvoiceNumber {
        invoice_number: "INV-42".to_string(),
    };
    assert_eq!(InvoiceNumber::decode(&i.encode()).unwrap(), i);
}

#[test]
fn enums_round_trip_through_their_tokens() {
    let statuses = [
        (OrderStatus::Created, "CREATED"),
        (OrderStatus::Saved, "SAVED"),
        (OrderStatus::Approved, "APPROVED"),
        (OrderStatus::Voided, "VOIDED"),
        (OrderStatus::Completed, "COMPLETED"),
    ];
    for (v, tok) in statuses {
        assert_eq!(v.encode(), s(tok));
        assert_eq!(OrderStatus::decode(&s(tok)).unwrap(), v);
    }
    assert_eq!(ShipmentCarrier::decode(&s("FEDEX")).unwrap(), ShipmentCarrier::Fedex);
    assert_eq!(ShipmentCarrier::Other.encode(), s("OTHER"));
}

#[test]
fn unknown_enum_token_is_rejected() {
    let r = Currency::decode(&s("XYZ"));
    assert!(matches!(r, Err(DecodeError::UnknownToken(_))));
    let r = OrderStatus::decode(&s("created"));
    assert!(matches!(r, Err(DecodeError::UnknownToken(_))));
    let r = ShipmentCarrier::decode(&s("PIGEON_POST"));
    assert!(matches!(r, Err(DecodeError::UnknownToken(_))));
}

#[test]
fn missing_required_field_is_reported() {
    let doc = obj(vec![("currency_code", s("USD"))]);
    match Money::decode(&doc) {
        Err(DecodeError::MissingField(f)) => assert_eq!(f, "value"),
        other => panic!("expected a missing-field error, got {:?}", other),
    }
}

#[test]
fn wrong_field_type_is_reported() {
    let doc = obj(vec![
        ("currency_code", s("USD")),
        ("value", JsonValue::Bool(true)),
    ]);
    assert!(matches!(Money::decode(&doc), Err(DecodeError::WrongType(_))));
    assert!(matches!(
        Money::decode(&JsonValue::Null),
        Err(DecodeError::WrongType(_))
    ));
}
