//! Round trips of the aggregate types: orders with purchase units, invoices
//! with nested discounts, and the opaque funding-instrument documents.

use paypal_rest::api::AddOrderTrackingBuilder;
use paypal_rest::codec::{BuildError, DecodeError, WireCodec};
use paypal_rest::common::{Currency, LinkDescription, Money, ShipmentCarrier};
use paypal_rest::invoice;
use paypal_rest::json::JsonValue;
use paypal_rest::orders::{Amount, Order, OrderStatus, PaymentSourceResponse, PurchaseUnit};
use paypal_rest::tracking::OrderTracking;

#[test]
fn purchase_unit_new_encodes_with_only_the_amount() {
    let pu = PurchaseUnit::new(Amount::usd("10.00"));
    match pu.encode() {
        JsonValue::Object(fields) => {
            let keys: Vec<&str> = fields.iter().map(|(k, _)| k.as_str()).collect();
            assert_eq!(keys, vec!["amount"]);
        }
        other => panic!("expected an object, got {:?}", other),
    }
}

#[test]
fn purchase_unit_round_trips() {
    let pu = PurchaseUnit::new(Amount::eur("25.50"));
    let back = PurchaseUnit::decode(&pu.encode()).unwrap();
    assert_eq!(back, pu);
}

#[test]
fn order_round_trips() {
    let order = Order {
        create_time: Some("2024-05-01T10:00:00Z".to_string()),
        update_time: None,
        id: "5O190127TN364715T".to_string(),
        purchase_units: Some(vec![PurchaseUnit::new(Amount::usd("100.00"))]),
        links: vec![LinkDescription {
            href: "https://api.example.com/v2/checkout/orders/5O190127TN364715T".to_string(),
            rel: "self".to_string(),
            method: Some("GET".to_string()),
        }],
        payment_source: None,
        intent: None,
        payer: None,
        status: OrderStatus::Created,
    };
    let back = Order::decode(&order.encode()).unwrap();
    assert_eq!(back, order);
}

#[test]
fn funding_instrument_documents_pass_through_unaltered() {
    let blob = JsonValue::Object(vec![(
        "last_digits".to_string(),
        JsonValue::Str("1111".to_string()),
    )]);
    let ps = PaymentSourceResponse {
        card: Some(blob),
        bancontact: None,
        blik: None,
        eps: None,
        giropay: None,
        ideal: None,
        mybank: None,
        p24: None,
        sofort: None,
        trustly: None,
        venmo: None,
        paypal: None,
        apple_pay: None,
        google_pay: None,
    };
    let back = PaymentSourceResponse::decode(&ps.encode()).unwrap();
    assert_eq!(back, ps);
}

#[test]
fn nested_discount_amounts_round_trip() {
    let inner = invoice::Amount {
        currency_code: Currency::USD,
        value: "5.00".to_string(),
        breakdown: None,
    };
    let outer = invoice::Amount {
        currency_code: Currency::USD,
        value: "95.00".to_string(),
        breakdown: Some(invoice::Breakdown {
            item_total: Some(Money {
                currency_code: Currency::USD,
                value: "100.00".to_string(),
            }),
            discount: Some(invoice::AggregatedDiscount {
                invoice_discount: Some(invoice::Discount {
                    percent: None,
                    amount: Some(Box::new(inner)),
                }),
                item_discount: None,
            }),
            tax_total: None,
            shipping: None,
            custom: None,
        }),
    };
    let back = invoice::Amount::decode(&outer.encode()).unwrap();
    assert_eq!(back, outer);
}

#[test]
fn invoice_round_trips() {
    let inv = invoice::Invoice {
        id: "INV2-Z56S-5LLA-Q52L-CPZ5".to_string(),
        parent_id: None,
        status: invoice::Status::Draft,
        detail: invoice::InvoiceDetail {
            reference: None,
            currency_code: Currency::USD,
            note: Some("thank you".to_string()),
            terms_and_conditions: None,
            memo: None,
            attachments: None,
            invoice_number: Some("0001".to_string()),
            invoice_date: Some("2024-05-01".to_string()),
            payment_term: None,
            metadata: None,
        },
        invoicer: None,
        primary_recipients: None,
        additional_recipients: None,
        items: Some(vec![invoice::ItemBuilder::new()
            .name("consulting".to_string())
            .quantity("1".to_string())
            .unit_amount(Money {
                currency_code: Currency::USD,
                value: "150.00".to_string(),
            })
            .build()
            .unwrap()]),
        configuration: None,
        amount: invoice::Amount::new(Currency::USD, "150.00"),
        due_amount: None,
        gratuity: None,
        payments: None,
        refunds: None,
        links: None,
    };
    let back = invoice::Invoice::decode(&inv.encode()).unwrap();
    assert_eq!(back, inv);
}

#[test]
fn descriptor_builder_enforces_required_fields() {
    let tracking = OrderTracking {
        tracking_number: "443844607820".to_string(),
        carrier_name_other: None,
        carrier: ShipmentCarrier::Fedex,
        capture_id: "8MC585209K746392H".to_string(),
        notify_payer: None,
        items: None,
    };
    let r = AddOrderTrackingBuilder::new().body(tracking.clone()).build();
    match r {
        Err(BuildError::UninitializedField(f)) => assert_eq!(f, "order_id"),
        other => panic!("expected a construction error, got {:?}", other),
    }
    let d = AddOrderTrackingBuilder::new()
        .order_id("5O190127TN364715T".to_string())
        .body(tracking)
        .build()
        .unwrap();
    assert_eq!(d.order_id, "5O190127TN364715T");
    assert_eq!(d.relative_path(), "/v2/checkout/orders/5O190127TN364715T/track");
}

#[test]
fn unknown_token_errors_carry_the_token() {
    match Currency::decode(&JsonValue::Str("XYZ".to_string())) {
        Err(DecodeError::UnknownToken(s)) => assert_eq!(s, "XYZ"),
        other => panic!("expected an unknown-token error, got {:?}", other),
    }
}
