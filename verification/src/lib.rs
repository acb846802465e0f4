//! A typed client binding for the PayPal REST API (orders, invoicing and
//! shipment-tracking domains).
//!
//! The crate models PayPal's JSON schemas as plain value types and gives each
//! entity an explicit, verified encoding to and decoding from a structural
//! JSON document ([`json::JsonValue`]), except the two records whose fields
//! are machine integers rather than wire text (the invoice list page and the
//! QR-code parameters), which are carried as plain data.  Endpoint
//! descriptors pair a relative URL path and an HTTP method with a typed
//! request body and declare their response type; an external transport layer
//! is expected to turn descriptors into HTTP calls and JSON documents into
//! text.

pub mod api;
pub mod codec;
pub mod common;
pub mod invoice;
pub mod json;
pub mod orders;
pub mod tracking;
