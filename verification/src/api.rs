//! Endpoint descriptors for the order-tracking API.
//!
//! A descriptor is pure data: it pairs path parameters with a typed request
//! body and exposes the HTTP method, the relative URL path and the body.  An
//! external transport layer executes it; nothing here performs I/O.

use vstd::prelude::*;
use vstd::string::StringExecFns;

use crate::codec::{BuildError, WireCodec};
use crate::orders::Order;
use crate::tracking::OrderTracking;

verus! {

/// The HTTP method of an endpoint.
#[derive(Debug, Clone, Copy, PartialEq, Eq, Structural)]
pub enum Method {
    /// HTTP GET.
    Get,
    /// HTTP POST.
    Post,
    /// HTTP PUT.
    Put,
    /// HTTP PATCH.
    Patch,
    /// HTTP DELETE.
    Delete,
}

/// The response an executed [`AddOrderTracking`] call deserializes into: the
/// updated order.
pub type AddOrderTrackingResponse = Order;

/// Update tracking for an order: `POST /v2/checkout/orders/{order_id}/track`
/// with an [`OrderTracking`] body.  The response is the updated order,
/// [`AddOrderTrackingResponse`].
#[derive(Debug, Clone)]
pub struct AddOrderTracking {
    /// The ID of the order.
    pub order_id: String,
    /// The endpoint body.
    pub body: OrderTracking,
}

impl AddOrderTracking {
    /// New constructor.
    pub fn new(order_id: &str, body: OrderTracking) -> (r: Self)
        ensures
            r.order_id@ == order_id@,
            r.body == body,
    {
        Self { order_id: order_id.to_owned(), body }
    }

    /// The path of this endpoint relative to the service root: the order ID
    /// interpolated into `/v2/checkout/orders/{order_id}/track`.
    pub fn relative_path(&self) -> (r: String)
        ensures
            r@ == "/v2/checkout/orders/"@ + self.order_id@ + "/track"@,
    {
        let mut path = String::from_str("/v2/checkout/orders/");
        path.append(self.order_id.as_str());
        path.append("/track");
        path
    }

    /// The HTTP method of this endpoint.
    pub fn method(&self) -> (r: Method)
        ensures
            r == Method::Post,
    {
        Method::Post
    }

    /// The request body of this endpoint: the tracking information, carried
    /// onto the wire unchanged.
    pub fn body(&self) -> (r: Option<OrderTracking>)
        ensures
            match r {
                Some(b) => b.encoding() == self.body.encoding(),
                None => false,
            },
    {
        Some(self.body.clone())
    }
}

/// Assembles an [`AddOrderTracking`] descriptor step by step: both fields are
/// required, and `build` fails until each has been supplied.
#[derive(Debug, Clone)]
pub struct AddOrderTrackingBuilder {
    /// The staged order ID.
    pub order_id: Option<String>,
    /// The staged endpoint body.
    pub body: Option<OrderTracking>,
}

impl AddOrderTrackingBuilder {
    /// An empty builder: nothing staged yet.
    pub fn new() -> (r: Self)
        ensures
            r.order_id is None,
            r.body is None,
    {
        AddOrderTrackingBuilder { order_id: None, body: None }
    }

    /// Stages the order ID.
    pub fn order_id(self, value: String) -> (r: Self)
        ensures
            r == (AddOrderTrackingBuilder { order_id: Some(value), ..self }),
    {
        AddOrderTrackingBuilder { order_id: Some(value), ..self }
    }

    /// Stages the endpoint body.
    pub fn body(self, value: OrderTracking) -> (r: Self)
        ensures
            r == (AddOrderTrackingBuilder { body: Some(value), ..self }),
    {
        AddOrderTrackingBuilder { body: Some(value), ..self }
    }

    /// Finishes the descriptor.  Succeeds exactly when both required fields
    /// were supplied; the error names the first missing one.
    pub fn build(self) -> (r: Result<AddOrderTracking, BuildError>)
        ensures
            r is Ok <==> (self.order_id is Some && self.body is Some),
            match r {
                Ok(d) => Some(d.order_id) == self.order_id && Some(d.body) == self.body,
                Err(BuildError::UninitializedField(f)) => f@ == if self.order_id is None {
                    "order_id"@
                } else {
                    "body"@
                },
            },
    {
        let order_id = match self.order_id {
            Some(x) => x,
            None => {
                return Err(BuildError::UninitializedField("order_id".to_owned()));
            },
        };
        let body = match self.body {
            Some(x) => x,
            None => {
                return Err(BuildError::UninitializedField("body".to_owned()));
            },
        };
        Ok(AddOrderTracking { order_id, body })
    }
}

} // verus!
