//! The order-tracking endpoint descriptor and the tracking schema: path
//! interpolation, field omission and tolerance of unknown fields.

use paypal_rest::api::{AddOrderTracking, Method};
use paypal_rest::codec::{DecodeError, WireCodec};
use paypal_rest::common::ShipmentCarrier;
use paypal_rest::json::JsonValue;
use paypal_rest::tracking::{OrderTracking, ShipmentItem};

fn sample_tracking() -> OrderTracking {
    OrderTracking {
        tracking_number: "1Z999AA10123456784".to_string(),
        carrier_name_other: None,
        carrier: ShipmentCarrier::Ups,
        capture_id: "8MC585209K746392H".to_string(),
        notify_payer: Some(false),
        items: Some(vec![ShipmentItem {
            name: Some("T-Shirt".to_string()),
            quantity: Some("1".to_string()),
            sku: Some("sku02".to_string()),
            url: None,
            image_url: None,
            upc: None,
        }]),
    }
}

#[test]
fn relative_path_interpolates_the_order_id() {
    let e = AddOrderTracking::new("ORDER123", sample_tracking());
    assert_eq!(e.relative_path(), "/v2/checkout/orders/ORDER123/track");
    assert_eq!(e.method(), Method::Post);
}

#[test]
fn descriptor_keeps_its_parts() {
    let t = sample_tracking();
    let e = AddOrderTracking::new("5O190127TN364715T", t.clone());
    assert_eq!(e.order_id, "5O190127TN364715T");
    assert_eq!(e.body, t);
    assert_eq!(e.body().unwrap(), t);
}

#[test]
fn order_tracking_round_trips() {
    let t = sample_tracking();
    let back = OrderTracking::decode(&t.encode()).unwrap();
    assert_eq!(back, t);
}

#[test]
fn unset_optionals_are_omitted_not_null() {
    let t = OrderTracking {
        tracking_number: "443844607820".to_string(),
        carrier_name_other: None,
        carrier: ShipmentCarrier::Fedex,
        capture_id: "8MC585209K746392H".to_string(),
        notify_payer: None,
        items: None,
    };
    match t.encode() {
        JsonValue::Object(fields) => {
            let keys: Vec<&str> = fields.iter().map(|(k, _)| k.as_str()).collect();
            assert_eq!(keys, vec!["tracking_number", "carrier", "capture_id"]);
            assert!(!fields.iter().any(|(_, v)| *v == JsonValue::Null));
        }
        other => panic!("expected an object, got {:?}", other),
    }
}

#[test]
fn unknown_extra_field_is_ignored() {
    let t = sample_tracking();
    let with_extra = match t.encode() {
        JsonValue::Object(mut fields) => {
            fields.push((
                "shipment_weight".to_string(),
                JsonValue::Str("1.2kg".to_string()),
            ));
            JsonValue::Object(fields)
        }
        other => panic!("expected an object, got {:?}", other),
    };
    let back = OrderTracking::decode(&with_extra).unwrap();
    assert_eq!(back, t);
}

#[test]
fn unknown_carrier_token_fails_the_whole_decode() {
    let bad = match sample_tracking().encode() {
        JsonValue::Object(fields) => JsonValue::Object(
            fields
                .into_iter()
                .map(|(k, v)| {
                    if k == "carrier" {
                        (k, JsonValue::Str("PIGEON_POST".to_string()))
                    } else {
                        (k, v)
                    }
                })
                .collect(),
        ),
        other => panic!("expected an object, got {:?}", other),
    };
    assert!(matches!(
        OrderTracking::decode(&bad),
        Err(DecodeError::UnknownToken(_))
    ));
}

#[test]
fn shipment_item_round_trips() {
    let i = ShipmentItem {
        name: None,
        quantity: Some("3".to_string()),
        sku: None,
        url: Some("https://shop.example.com/widget".to_string()),
        image_url: None,
        upc: None,
    };
    assert_eq!(ShipmentItem::decode(&i.encode()).unwrap(), i);
}
