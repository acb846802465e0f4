//! Builder finalisation and the invoicing payload codecs.

use paypal_rest::codec::{BuildError, DecodeError, WireCodec};
use paypal_rest::common::{Currency, Money};
use paypal_rest::invoice::{Amount, CancelReason, ItemBuilder, Name, SendInvoicePayload, Status};
use paypal_rest::json::JsonValue;
use paypal_rest::orders;
use paypal_rest::orders::PurchaseUnit;

fn usd(value: &str) -> Money {
    Money {
        currency_code: Currency::USD,
        value: value.to_string(),
    }
}

#[test]
fn building_an_item_without_name_fails() {
    let r = ItemBuilder::new()
        .quantity("1".to_string())
        .unit_amount(usd("5.00"))
        .build();
    match r {
        Err(BuildError::UninitializedField(f)) => assert_eq!(f, "name"),
        other => panic!("expected a construction error, got {:?}", other),
    }
}

#[test]
fn building_an_item_with_all_required_fields_succeeds() {
    let item = ItemBuilder::new()
        .name("consulting".to_string())
        .quantity("8".to_string())
        .unit_amount(usd("120.00"))
        .build()
        .unwrap();
    assert_eq!(item.name, "consulting");
    assert_eq!(item.quantity, "8");
    assert_eq!(item.unit_amount, usd("120.00"));
    assert!(item.id.is_none());
    assert!(item.description.is_none());
    assert!(item.tax.is_none());
    assert!(item.item_date.is_none());
    assert!(item.discount.is_none());
    assert!(item.unit_of_measure.is_none());
}

#[test]
fn orders_item_builder_enforces_required_fields_too() {
    let r = orders::ItemBuilder::new()
        .name("widget".to_string())
        .unit_amount(usd("1.00"))
        .build();
    match r {
        Err(BuildError::UninitializedField(f)) => assert_eq!(f, "quantity"),
        other => panic!("expected a construction error, got {:?}", other),
    }
    let item = orders::ItemBuilder::new()
        .name("widget".to_string())
        .quantity("2".to_string())
        .unit_amount(usd("1.00"))
        .build()
        .unwrap();
    assert_eq!(item.name, "widget");
    assert!(item.sku.is_none());
}

#[test]
fn purchase_unit_new_defaults_everything_else() {
    let pu = PurchaseUnit::new(orders::Amount::usd("10.00"));
    assert_eq!(pu.amount.value, "10.00");
    assert!(pu.reference_id.is_none());
    assert!(pu.items.is_none());
    assert!(pu.payments.is_none());
}

#[test]
fn invoice_amount_new_has_no_breakdown() {
    let a = Amount::new(Currency::EUR, "250.00");
    assert_eq!(a.currency_code, Currency::EUR);
    assert_eq!(a.value, "250.00");
    assert!(a.breakdown.is_none());
}

#[test]
fn name_round_trips_and_omits_unset_parts() {
    let n = Name {
        prefix: None,
        given_name: Some("Grace".to_string()),
        surname: Some("Hopper".to_string()),
        middle_name: None,
        suffix: None,
        alternate_full_name: None,
        full_name: None,
    };
    let doc = n.encode();
    match &doc {
        JsonValue::Object(fields) => {
            let keys: Vec<&str> = fields.iter().map(|(k, _)| k.as_str()).collect();
            assert_eq!(keys, vec!["given_name", "surname"]);
        }
        other => panic!("expected an object, got {:?}", other),
    }
    assert_eq!(Name::decode(&doc).unwrap(), n);
}

#[test]
fn invoice_status_tokens_are_a_closed_set() {
    assert_eq!(Status::decode(&JsonValue::Str("PAID".to_string())).unwrap(), Status::Paid);
    assert_eq!(
        Status::MarkedAsRefunded.encode(),
        JsonValue::Str("MARKED_AS_REFUNDED".to_string())
    );
    assert!(matches!(
        Status::decode(&JsonValue::Str("PAID_IN_FULL".to_string())),
        Err(DecodeError::UnknownToken(_))
    ));
}

#[test]
fn send_invoice_payload_round_trips() {
    let p = SendInvoicePayload {
        additional_recipients: Some(vec![
            "cc1@example.com".to_string(),
            "cc2@example.com".to_string(),
        ]),
        note: Some("thank you".to_string()),
        send_to_invoicer: Some(true),
        send_to_recipient: None,
        subject: None,
    };
    assert_eq!(SendInvoicePayload::decode(&p.encode()).unwrap(), p);
}

#[test]
fn cancel_reason_round_trips() {
    let c = CancelReason {
        subject: Some("Order cancelled".to_string()),
        note: None,
        send_to_invoicer: Some(false),
        send_to_recipient: Some(true),
        additional_recipients: None,
    };
    assert_eq!(CancelReason::decode(&c.encode()).unwrap(), c);
}
