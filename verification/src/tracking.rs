//! The shipment-tracking schema: the tracking information attached to an
//! order and the items a shipment carries.

use vstd::prelude::*;

use crate::codec::{field_entry, get_opt, get_req, opt_entry, opt_ok, opt_rel, req_ok, req_rel};
use crate::codec::{DecodeError, WireCodec};
use crate::common::{ItemUpc, ShipmentCarrier};
use crate::json::{jv_of_fields, lemma_lookup_push, lookup, JsonValue, Jv};

verus! {

broadcast use
    crate::json::lemma_jv_of_fields_push,
    crate::json::lemma_jv_of_elems_push,
    crate::json::lemma_lookup_concat,
    crate::codec::lemma_lookup_field_entry,
    crate::codec::lemma_lookup_opt_entry,
;

/// An item in a shipment.
#[derive(Debug, PartialEq)]
pub struct ShipmentItem {
    /// The item name or title.
    pub name: Option<String>,
    /// The item quantity. Must be a whole number.
    pub quantity: Option<String>,
    /// The stock keeping unit (SKU) for the item.
    pub sku: Option<String>,
    /// The URL to the item being purchased.
    pub url: Option<String>,
    /// The URL of the item's image.
    pub image_url: Option<String>,
    /// The Universal Product Code of the item.
    pub upc: Option<ItemUpc>,
}

impl ShipmentItem {
    /// The fields of this value's wire document, in emission order.
    pub open spec fn wire_fields(self) -> Seq<(Seq<char>, Jv)> {
        opt_entry("name"@, self.name) + opt_entry("quantity"@, self.quantity) + opt_entry(
            "sku"@,
            self.sku,
        ) + opt_entry("url"@, self.url) + opt_entry("image_url"@, self.image_url) + opt_entry(
            "upc"@,
            self.upc,
        )
    }
}

impl WireCodec for ShipmentItem {
    open spec fn encoding(self) -> Jv {
        Jv::Object(self.wire_fields())
    }

    open spec fn can_decode(v: Jv) -> bool {
        match v {
            Jv::Object(fs) => {
                &&& opt_ok::<String>(fs, "name"@)
                &&& opt_ok::<String>(fs, "quantity"@)
                &&& opt_ok::<String>(fs, "sku"@)
                &&& opt_ok::<String>(fs, "url"@)
                &&& opt_ok::<String>(fs, "image_url"@)
                &&& opt_ok::<ItemUpc>(fs, "upc"@)
            },
            _ => false,
        }
    }

    open spec fn decodes_to(v: Jv, t: Self) -> bool {
        match v {
            Jv::Object(fs) => {
                &&& opt_rel::<String>(fs, "name"@, t.name)
                &&& opt_rel::<String>(fs, "quantity"@, t.quantity)
                &&& opt_rel::<String>(fs, "sku"@, t.sku)
                &&& opt_rel::<String>(fs, "url"@, t.url)
                &&& opt_rel::<String>(fs, "image_url"@, t.image_url)
                &&& opt_rel::<ItemUpc>(fs, "upc"@, t.upc)
            },
            _ => false,
        }
    }

    fn encode(&self) -> (r: JsonValue) {
        let mut fs: Vec<(String, JsonValue)> = Vec::new();
        if let Some(x) = &self.name {
            fs.push(("name".to_owned(), x.encode()));
        }
        if let Some(x) = &self.quantity {
            fs.push(("quantity".to_owned(), x.encode()));
        }
        if let Some(x) = &self.sku {
            fs.push(("sku".to_owned(), x.encode()));
        }
        if let Some(x) = &self.url {
            fs.push(("url".to_owned(), x.encode()));
        }
        if let Some(x) = &self.image_url {
            fs.push(("image_url".to_owned(), x.encode()));
        }
        if let Some(x) = &self.upc {
            fs.push(("upc".to_owned(), x.encode()));
        }
        proof {
            crate::json::lemma_jv_of_fields(fs@);
            assert(jv_of_fields(fs@) =~= (*self).wire_fields());
        }
        JsonValue::Object(fs)
    }

    fn decode(v: &JsonValue) -> (r: Result<Self, DecodeError>) {
        match v {
            JsonValue::Object(fields) => {
                let name = match get_opt::<String>(fields, "name") {
                    Ok(x) => x,
                    Err(e) => return Err(e),
                };
                let quantity = match get_opt::<String>(fields, "quantity") {
                    Ok(x) => x,
                    Err(e) => return Err(e),
                };
                let sku = match get_opt::<String>(fields, "sku") {
                    Ok(x) => x,
                    Err(e) => return Err(e),
                };
                let url = match get_opt::<String>(fields, "url") {
                    Ok(x) => x,
                    Err(e) => return Err(e),
                };
                let image_url = match get_opt::<String>(fields, "image_url") {
                    Ok(x) => x,
                    Err(e) => return Err(e),
                };
                let upc = match get_opt::<ItemUpc>(fields, "upc") {
                    Ok(x) => x,
                    Err(e) => return Err(e),
                };
                Ok(ShipmentItem { name, quantity, sku, url, image_url, upc })
            },
            _ => Err(DecodeError::WrongType("object".to_owned())),
        }
    }

    proof fn lemma_round_trip(t: Self, u: Self) {
        reveal_strlit("name");
        reveal_strlit("quantity");
        reveal_strlit("sku");
        reveal_strlit("url");
        reveal_strlit("image_url");
        reveal_strlit("upc");
        assert("name"@.len() == 4);
        assert("quantity"@.len() == 8);
        assert("sku"@.len() == 3);
        assert("url"@.len() == 3);
        assert("image_url"@.len() == 9);
        assert("upc"@.len() == 3);
        assert("sku"@[0] == 's');
        assert("url"@[0] == 'u');
        assert("upc"@[0] == 'u');
        assert("url"@[1] == 'r');
        assert("upc"@[1] == 'p');
        if let Some(x) = t.upc {
            ItemUpc::lemma_round_trip(x, x);
        }
        if Self::decodes_to(t.encoding(), u) {
            if let (Some(x), Some(y)) = (t.upc, u.upc) {
                ItemUpc::lemma_round_trip(x, y);
            }
            assert(u.wire_fields() =~= t.wire_fields());
        }
    }
}

impl Clone for ShipmentItem {
    /// A clone carries the same document onto the wire as the original.
    fn clone(&self) -> (res: Self)
        ensures
            res.encoding() == self.encoding(),
    {
        let res = ShipmentItem {
            name: self.name.clone(),
            quantity: self.quantity.clone(),
            sku: self.sku.clone(),
            url: self.url.clone(),
            image_url: self.image_url.clone(),
            upc: match &self.upc {
                Some(u) => Some(ItemUpc { upc_type: u.upc_type.clone(), code: u.code.clone() }),
                None => None,
            },
        };
        proof {
            assert(res.wire_fields() =~= self.wire_fields());
        }
        res
    }
}

/// The tracking information for an order's shipment.
#[derive(Debug, PartialEq)]
pub struct OrderTracking {
    /// The tracking number for the shipment.
    pub tracking_number: String,
    /// The name of the carrier for the shipment, when `carrier` is `Other`.
    pub carrier_name_other: Option<String>,
    /// The carrier for the shipment.  When the carrier is not in the closed
    /// list, set it to `Other` and name it in `carrier_name_other`.
    pub carrier: ShipmentCarrier,
    /// The PayPal capture ID.
    pub capture_id: String,
    /// Whether PayPal sends the payer an email notification with the tracking
    /// details of the shipment.
    pub notify_payer: Option<bool>,
    /// The details of the items in the shipment.
    pub items: Option<Vec<ShipmentItem>>,
}

impl OrderTracking {
    /// The keys this type reads from its wire document.
    pub open spec fn spec_known_key(k: Seq<char>) -> bool {
        ||| k == "tracking_number"@
        ||| k == "carrier_name_other"@
        ||| k == "carrier"@
        ||| k == "capture_id"@
        ||| k == "notify_payer"@
        ||| k == "items"@
    }

    /// Omission of unset optionals: an optional field left unset contributes
    /// no key to the document at all — in particular it is never emitted as
    /// an explicit null.
    pub proof fn lemma_unset_fields_omitted(t: OrderTracking)
        ensures
            t.carrier_name_other is None ==> lookup(t.wire_fields(), "carrier_name_other"@)
                is None,
            t.notify_payer is None ==> lookup(t.wire_fields(), "notify_payer"@) is None,
            t.items is None ==> lookup(t.wire_fields(), "items"@) is None,
    {
        reveal_strlit("tracking_number");
        reveal_strlit("carrier_name_other");
        reveal_strlit("carrier");
        reveal_strlit("capture_id");
        reveal_strlit("notify_payer");
        reveal_strlit("items");
        assert("tracking_number"@.len() == 15);
        assert("carrier_name_other"@.len() == 18);
        assert("carrier"@.len() == 7);
        assert("capture_id"@.len() == 10);
        assert("notify_payer"@.len() == 12);
        assert("items"@.len() == 5);
    }

    /// Forward compatibility: a field under an unrecognized key, appended to
    /// a document, changes nothing — the document still decodes, and to the
    /// same value.
    pub proof fn lemma_extra_field_ignored(
        fs: Seq<(Seq<char>, Jv)>,
        extra: (Seq<char>, Jv),
        t: OrderTracking,
    )
        requires
            !OrderTracking::spec_known_key(extra.0),
        ensures
            OrderTracking::can_decode(Jv::Object(fs)) ==> OrderTracking::can_decode(
                Jv::Object(fs.push(extra)),
            ),
            OrderTracking::decodes_to(Jv::Object(fs), t) ==> OrderTracking::decodes_to(
                Jv::Object(fs.push(extra)),
                t,
            ),
    {
        lemma_lookup_push(fs, extra, "tracking_number"@);
        lemma_lookup_push(fs, extra, "carrier_name_other"@);
        lemma_lookup_push(fs, extra, "carrier"@);
        lemma_lookup_push(fs, extra, "capture_id"@);
        lemma_lookup_push(fs, extra, "notify_payer"@);
        lemma_lookup_push(fs, extra, "items"@);
    }

    /// The fields of this value's wire document, in emission order.
    pub open spec fn wire_fields(self) -> Seq<(Seq<char>, Jv)> {
        field_entry("tracking_number"@, self.tracking_number.encoding()) + opt_entry(
            "carrier_name_other"@,
            self.carrier_name_other,
        ) + field_entry("carrier"@, self.carrier.encoding()) + field_entry(
            "capture_id"@,
            self.capture_id.encoding(),
        ) + opt_entry("notify_payer"@, self.notify_payer) + opt_entry("items"@, self.items)
    }
}

impl WireCodec for OrderTracking {
    open spec fn encoding(self) -> Jv {
        Jv::Object(self.wire_fields())
    }

    open spec fn can_decode(v: Jv) -> bool {
        match v {
            Jv::Object(fs) => {
                &&& req_ok::<String>(fs, "tracking_number"@)
                &&& opt_ok::<String>(fs, "carrier_name_other"@)
                &&& req_ok::<ShipmentCarrier>(fs, "carrier"@)
                &&& req_ok::<String>(fs, "capture_id"@)
                &&& opt_ok::<bool>(fs, "notify_payer"@)
                &&& opt_ok::<Vec<ShipmentItem>>(fs, "items"@)
            },
            _ => false,
        }
    }

    open spec fn decodes_to(v: Jv, t: Self) -> bool {
        match v {
            Jv::Object(fs) => {
                &&& req_rel::<String>(fs, "tracking_number"@, t.tracking_number)
                &&& opt_rel::<String>(fs, "carrier_name_other"@, t.carrier_name_other)
                &&& req_rel::<ShipmentCarrier>(fs, "carrier"@, t.carrier)
                &&& req_rel::<String>(fs, "capture_id"@, t.capture_id)
                &&& opt_rel::<bool>(fs, "notify_payer"@, t.notify_payer)
                &&& opt_rel::<Vec<ShipmentItem>>(fs, "items"@, t.items)
            },
            _ => false,
        }
    }

    fn encode(&self) -> (r: JsonValue) {
        let mut fs: Vec<(String, JsonValue)> = Vec::new();
        fs.push(("tracking_number".to_owned(), self.tracking_number.encode()));
        if let Some(x) = &self.carrier_name_other {
            fs.push(("carrier_name_other".to_owned(), x.encode()));
        }
        fs.push(("carrier".to_owned(), self.carrier.encode()));
        fs.push(("capture_id".to_owned(), self.capture_id.encode()));
        if let Some(x) = &self.notify_payer {
            fs.push(("notify_payer".to_owned(), x.encode()));
        }
        if let Some(x) = &self.items {
            fs.push(("items".to_owned(), x.encode()));
        }
        proof {
            crate::json::lemma_jv_of_fields(fs@);
            assert(jv_of_fields(fs@) =~= (*self).wire_fields());
        }
        JsonValue::Object(fs)
    }

    fn decode(v: &JsonValue) -> (r: Result<Self, DecodeError>) {
        match v {
            JsonValue::Object(fields) => {
                let tracking_number = match get_req::<String>(fields, "tracking_number") {
                    Ok(x) => x,
                    Err(e) => return Err(e),
                };
                let carrier_name_other = match get_opt::<String>(fields, "carrier_name_other") {
                    Ok(x) => x,
                    Err(e) => return Err(e),
                };
                let carrier = match get_req::<ShipmentCarrier>(fields, "carrier") {
                    Ok(x) => x,
                    Err(e) => return Err(e),
                };
                let capture_id = match get_req::<String>(fields, "capture_id") {
                    Ok(x) => x,
                    Err(e) => return Err(e),
                };
                let notify_payer = match get_opt::<bool>(fields, "notify_payer") {
                    Ok(x) => x,
                    Err(e) => return Err(e),
                };
                let items = match get_opt::<Vec<ShipmentItem>>(fields, "items") {
                    Ok(x) => x,
                    Err(e) => return Err(e),
                };
                Ok(
                    OrderTracking {
                        tracking_number,
                        carrier_name_other,
                        carrier,
                        capture_id,
                        notify_payer,
                        items,
                    },
                )
            },
            _ => Err(DecodeError::WrongType("object".to_owned())),
        }
    }

    proof fn lemma_round_trip(t: Self, u: Self) {
        reveal_strlit("tracking_number");
        reveal_strlit("carrier_name_other");
        reveal_strlit("carrier");
        reveal_strlit("capture_id");
        reveal_strlit("notify_payer");
        reveal_strlit("items");
        assert("tracking_number"@.len() == 15);
        assert("carrier_name_other"@.len() == 18);
        assert("carrier"@.len() == 7);
        assert("capture_id"@.len() == 10);
        assert("notify_payer"@.len() == 12);
        assert("items"@.len() == 5);
        ShipmentCarrier::lemma_round_trip(t.carrier, u.carrier);
        if let Some(x) = t.items {
            <Vec<ShipmentItem> as WireCodec>::lemma_round_trip(x, x);
        }
        if Self::decodes_to(t.encoding(), u) {
            if let (Some(x), Some(y)) = (t.items, u.items) {
                <Vec<ShipmentItem> as WireCodec>::lemma_round_trip(x, y);
            }
            assert(u.wire_fields() =~= t.wire_fields());
        }
    }
}

impl Clone for OrderTracking {
    /// A clone carries the same document onto the wire as the original.
    fn clone(&self) -> (res: Self)
        ensures
            res.encoding() == self.encoding(),
    {
        let items: Option<Vec<ShipmentItem>> = match &self.items {
            Some(v) => Some(v.clone()),
            None => None,
        };
        let ghost a_opt = self.items;
        let ghost b_opt = items;
        proof {
            if let (Some(a), Some(b)) = (a_opt, b_opt) {
                assert(Seq::new(b@.len(), |i: int| b@[i].encoding()) =~= Seq::new(
                    a@.len(),
                    |i: int| a@[i].encoding(),
                ));
            }
        }
        let res = OrderTracking {
            tracking_number: self.tracking_number.clone(),
            carrier_name_other: self.carrier_name_other.clone(),
            carrier: self.carrier,
            capture_id: self.capture_id.clone(),
            notify_payer: self.notify_payer,
            items,
        };
        proof {
            assert(res.wire_fields() =~= self.wire_fields());
        }
        res
    }
}

} // verus!
