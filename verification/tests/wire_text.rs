//! The structural documents agree with real JSON text: rendering an encoded
//! value through serde_json produces exactly the wire form PayPal documents,
//! and parsed wire text decodes back to the same value.

use paypal_rest::codec::WireCodec;
use paypal_rest::common::{Currency, Money, ShipmentCarrier};
use paypal_rest::json::JsonValue;
use paypal_rest::tracking::OrderTracking;

fn to_serde(v: &JsonValue) -> serde_json::Value {
    match v {
        JsonValue::Null => serde_json::Value::Null,
        JsonValue::Bool(b) => serde_json::Value::Bool(*b),
        JsonValue::Number(text) => {
            let n: serde_json::Number = text.parse().expect("a decimal number");
            serde_json::Value::Number(n)
        }
        JsonValue::Str(text) => serde_json::Value::String(text.clone()),
        JsonValue::Array(items) => serde_json::Value::Array(items.iter().map(to_serde).collect()),
        JsonValue::Object(fields) => {
            let mut map = serde_json::Map::new();
            for (k, v) in fields {
                map.insert(k.clone(), to_serde(v));
            }
            serde_json::Value::Object(map)
        }
    }
}

fn from_serde(v: &serde_json::Value) -> JsonValue {
    match v {
        serde_json::Value::Null => JsonValue::Null,
        serde_json::Value::Bool(b) => JsonValue::Bool(*b),
        serde_json::Value::Number(n) => JsonValue::Number(n.to_string()),
        serde_json::Value::String(text) => JsonValue::Str(text.clone()),
        serde_json::Value::Array(items) => JsonValue::Array(items.iter().map(from_serde).collect()),
        serde_json::Value::Object(map) => JsonValue::Object(
            map.iter().map(|(k, v)| (k.clone(), from_serde(v))).collect(),
        ),
    }
}

#[test]
fn money_renders_as_documented_wire_text() {
    let m = Money {
        currency_code: Currency::USD,
        value: "19.99".to_string(),
    };
    let text = serde_json::to_string(&to_serde(&m.encode())).unwrap();
    assert_eq!(text, r#"{"currency_code":"USD","value":"19.99"}"#);
}

#[test]
fn tracking_wire_text_parses_and_decodes() {
    let text = r#"{
        "tracking_number": "443844607820",
        "carrier": "FEDEX",
        "capture_id": "8MC585209K746392H",
        "notify_payer": false,
        "links": [{"href": "https://api.example.com", "rel": "self"}]
    }"#;
    let parsed: serde_json::Value = serde_json::from_str(text).unwrap();
    let t = OrderTracking::decode(&from_serde(&parsed)).unwrap();
    assert_eq!(t.tracking_number, "443844607820");
    assert_eq!(t.carrier, ShipmentCarrier::Fedex);
    assert_eq!(t.notify_payer, Some(false));
    assert!(t.carrier_name_other.is_none());
    assert!(t.items.is_none());
}
