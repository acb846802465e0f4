//! The orders schema: the order aggregate, its purchase units, payments,
//! captures, refunds and the value objects they carry.

use vstd::prelude::*;

use crate::codec::{field_entry, get_opt, get_req, opt_entry, opt_ok, opt_rel, push_opt,
    push_req, req_ok, req_rel, str_eq};
use crate::codec::{BuildError, DecodeError, WireCodec};
use crate::common::{Address, Currency, ItemUpc, LinkDescription, Money, PhoneType};
use crate::json::{jv_of_fields, lookup, JsonValue, Jv};

verus! {

broadcast use
    crate::json::lemma_jv_of_fields_push,
    crate::json::lemma_jv_of_elems_push,
    crate::json::lemma_lookup_concat,
    crate::codec::lemma_lookup_field_entry,
    crate::codec::lemma_lookup_opt_entry,
;

/// The intent to either capture payment immediately or authorize a payment
/// for an order after order creation.
#[derive(Debug, Clone, Copy, PartialEq, Eq)]
pub enum Intent {
    /// Capture payment immediately after the customer makes a payment.
    Capture,
    /// Authorize a payment and place funds on hold after the customer makes a
    /// payment, to be captured separately on demand.
    Authorize,
}

impl Intent {
    /// The wire token of this intent.
    pub open spec fn spec_token(self) -> Seq<char> {
        match self {
            Intent::Capture => "CAPTURE"@,
            Intent::Authorize => "AUTHORIZE"@,
        }
    }

    /// Whether `s` is one of the documented intent tokens.
    pub open spec fn spec_is_token(s: Seq<char>) -> bool {
        s == "CAPTURE"@ || s == "AUTHORIZE"@
    }
}

impl WireCodec for Intent {
    open spec fn encoding(self) -> Jv {
        Jv::Str(self.spec_token())
    }

    open spec fn can_decode(v: Jv) -> bool {
        match v {
            Jv::Str(s) => Intent::spec_is_token(s),
            _ => false,
        }
    }

    open spec fn decodes_to(v: Jv, t: Self) -> bool {
        v == Jv::Str(t.spec_token())
    }

    fn encode(&self) -> (r: JsonValue) {
        let tok = match self {
            Intent::Capture => "CAPTURE",
            Intent::Authorize => "AUTHORIZE",
        };
        JsonValue::Str(tok.to_owned())
    }

    fn decode(v: &JsonValue) -> (r: Result<Self, DecodeError>)
        ensures
            match r {
                Err(DecodeError::UnknownToken(s)) => v@ == Jv::Str(s@)
                    && !Intent::spec_is_token(s@),
                Err(DecodeError::WrongType(_)) => !(v@ is Str),
                Err(DecodeError::MissingField(_)) => false,
                Ok(_) => true,
            },
    {
        match v {
            JsonValue::Str(s) => {
                let c = s.as_str();
                if str_eq(c, "CAPTURE") {
                    Ok(Intent::Capture)
                } else if str_eq(c, "AUTHORIZE") {
                    Ok(Intent::Authorize)
                } else {
                    Err(DecodeError::UnknownToken(s.clone()))
                }
            },
            _ => Err(DecodeError::WrongType("string".to_owned())),
        }
    }

    proof fn lemma_round_trip(t: Self, u: Self) {
    }
}

/// The item category type.
#[derive(Debug, Clone, Copy, PartialEq, Eq)]
pub enum ItemCategoryType {
    /// Goods that are stored, delivered and used in their electronic format.
    DigitalGoods,
    /// A tangible item that can be shipped with proof of delivery.
    PhysicalGoods,
    /// A contribution or gift for which no good or service is exchanged.
    Donation,
}

impl ItemCategoryType {
    /// The wire token of this category.
    pub open spec fn spec_token(self) -> Seq<char> {
        match self {
            ItemCategoryType::DigitalGoods => "DIGITAL_GOODS"@,
            ItemCategoryType::PhysicalGoods => "PHYSICAL_GOODS"@,
            ItemCategoryType::Donation => "DONATION"@,
        }
    }

    /// Whether `s` is one of the documented category tokens.
    pub open spec fn spec_is_token(s: Seq<char>) -> bool {
        s == "DIGITAL_GOODS"@ || s == "PHYSICAL_GOODS"@ || s == "DONATION"@
    }
}

impl WireCodec for ItemCategoryType {
    open spec fn encoding(self) -> Jv {
        Jv::Str(self.spec_token())
    }

    open spec fn can_decode(v: Jv) -> bool {
        match v {
            Jv::Str(s) => ItemCategoryType::spec_is_token(s),
            _ => false,
        }
    }

    open spec fn decodes_to(v: Jv, t: Self) -> bool {
        v == Jv::Str(t.spec_token())
    }

    fn encode(&self) -> (r: JsonValue) {
        let tok = match self {
            ItemCategoryType::DigitalGoods => "DIGITAL_GOODS",
            ItemCategoryType::PhysicalGoods => "PHYSICAL_GOODS",
            ItemCategoryType::Donation => "DONATION",
        };
        JsonValue::Str(tok.to_owned())
    }

    fn decode(v: &JsonValue) -> (r: Result<Self, DecodeError>)
        ensures
            match r {
                Err(DecodeError::UnknownToken(s)) => v@ == Jv::Str(s@)
                    && !ItemCategoryType::spec_is_token(s@),
                Err(DecodeError::WrongType(_)) => !(v@ is Str),
                Err(DecodeError::MissingField(_)) => false,
                Ok(_) => true,
            },
    {
        match v {
            JsonValue::Str(s) => {
                let c = s.as_str();
                if str_eq(c, "DIGITAL_GOODS") {
                    Ok(ItemCategoryType::DigitalGoods)
                } else if str_eq(c, "PHYSICAL_GOODS") {
                    Ok(ItemCategoryType::PhysicalGoods)
                } else if str_eq(c, "DONATION") {
                    Ok(ItemCategoryType::Donation)
                } else {
                    Err(DecodeError::UnknownToken(s.clone()))
                }
            },
            _ => Err(DecodeError::WrongType("string".to_owned())),
        }
    }

    proof fn lemma_round_trip(t: Self, u: Self) {
    }
}

/// The status of an order.
#[derive(Debug, Clone, Copy, PartialEq, Eq)]
pub enum OrderStatus {
    /// The order was created with the specified context.
    Created,
    /// The order was saved and persisted.
    Saved,
    /// The customer approved the payment.
    Approved,
    /// All purchase units in the order are voided.
    Voided,
    /// The payment was authorized, or the authorized payment was captured,
    /// for the order.
    Completed,
}

impl OrderStatus {
    /// The wire token of this status.
    pub open spec fn spec_token(self) -> Seq<char> {
        match self {
            OrderStatus::Created => "CREATED"@,
            OrderStatus::Saved => "SAVED"@,
            OrderStatus::Approved => "APPROVED"@,
            OrderStatus::Voided => "VOIDED"@,
            OrderStatus::Completed => "COMPLETED"@,
        }
    }

    /// Whether `s` is one of the documented status tokens.
    pub open spec fn spec_is_token(s: Seq<char>) -> bool {
        ||| s == "CREATED"@
        ||| s == "SAVED"@
        ||| s == "APPROVED"@
        ||| s == "VOIDED"@
        ||| s == "COMPLETED"@
    }
}

impl WireCodec for OrderStatus {
    open spec fn encoding(self) -> Jv {
        Jv::Str(self.spec_token())
    }

    open spec fn can_decode(v: Jv) -> bool {
        match v {
            Jv::Str(s) => OrderStatus::spec_is_token(s),
            _ => false,
        }
    }

    open spec fn decodes_to(v: Jv, t: Self) -> bool {
        v == Jv::Str(t.spec_token())
    }

    fn encode(&self) -> (r: JsonValue) {
        let tok = match self {
            OrderStatus::Created => "CREATED",
            OrderStatus::Saved => "SAVED",
            OrderStatus::Approved => "APPROVED",
            OrderStatus::Voided => "VOIDED",
            OrderStatus::Completed => "COMPLETED",
        };
        JsonValue::Str(tok.to_owned())
    }

    fn decode(v: &JsonValue) -> (r: Result<Self, DecodeError>)
        ensures
            match r {
                Err(DecodeError::UnknownToken(s)) => v@ == Jv::Str(s@)
                    && !OrderStatus::spec_is_token(s@),
                Err(DecodeError::WrongType(_)) => !(v@ is Str),
                Err(DecodeError::MissingField(_)) => false,
                Ok(_) => true,
            },
    {
        match v {
            JsonValue::Str(s) => {
                let c = s.as_str();
                if str_eq(c, "CREATED") {
                    Ok(OrderStatus::Created)
                } else if str_eq(c, "SAVED") {
                    Ok(OrderStatus::Saved)
                } else if str_eq(c, "APPROVED") {
                    Ok(OrderStatus::Approved)
                } else if str_eq(c, "VOIDED") {
                    Ok(OrderStatus::Voided)
                } else if str_eq(c, "COMPLETED") {
                    Ok(OrderStatus::Completed)
                } else {
                    Err(DecodeError::UnknownToken(s.clone()))
                }
            },
            _ => Err(DecodeError::WrongType("string".to_owned())),
        }
    }

    proof fn lemma_round_trip(t: Self, u: Self) {
    }
}

/// The status of an item shipment.
#[derive(Debug, Clone, Copy, PartialEq, Eq)]
pub enum TrackerStatus {
    /// The shipment was cancelled and the tracking number no longer applies.
    Cancelled,
    /// The merchant has assigned a tracking number to the items being shipped
    /// from the order.
    Shipped,
}

impl TrackerStatus {
    /// The wire token of this status.
    pub open spec fn spec_token(self) -> Seq<char> {
        match self {
            TrackerStatus::Cancelled => "CANCELLED"@,
            TrackerStatus::Shipped => "SHIPPED"@,
        }
    }

    /// Whether `s` is one of the documented status tokens.
    pub open spec fn spec_is_token(s: Seq<char>) -> bool {
        s == "CANCELLED"@ || s == "SHIPPED"@
    }
}

impl WireCodec for TrackerStatus {
    open spec fn encoding(self) -> Jv {
        Jv::Str(self.spec_token())
    }

    open spec fn can_decode(v: Jv) -> bool {
        match v {
            Jv::Str(s) => TrackerStatus::spec_is_token(s),
            _ => false,
        }
    }

    open spec fn decodes_to(v: Jv, t: Self) -> bool {
        v == Jv::Str(t.spec_token())
    }

    fn encode(&self) -> (r: JsonValue) {
        let tok = match self {
            TrackerStatus::Cancelled => "CANCELLED",
            TrackerStatus::Shipped => "SHIPPED",
        };
        JsonValue::Str(tok.to_owned())
    }

    fn decode(v: &JsonValue) -> (r: Result<Self, DecodeError>)
        ensures
            match r {
                Err(DecodeError::UnknownToken(s)) => v@ == Jv::Str(s@)
                    && !TrackerStatus::spec_is_token(s@),
                Err(DecodeError::WrongType(_)) => !(v@ is Str),
                Err(DecodeError::MissingField(_)) => false,
                Ok(_) => true,
            },
    {
        match v {
            JsonValue::Str(s) => {
                let c = s.as_str();
                if str_eq(c, "CANCELLED") {
                    Ok(TrackerStatus::Cancelled)
                } else if str_eq(c, "SHIPPED") {
                    Ok(TrackerStatus::Shipped)
                } else {
                    Err(DecodeError::UnknownToken(s.clone()))
                }
            },
            _ => Err(DecodeError::WrongType("string".to_owned())),
        }
    }

    proof fn lemma_round_trip(t: Self, u: Self) {
    }
}

/// A payer name: the party's given name and surname.
#[derive(Debug, Clone, PartialEq)]
pub struct PayerName {
    /// The party's given, or first, name.
    pub given_name: String,
    /// The party's surname or family name.
    pub surname: String,
}

impl PayerName {
    /// The fields of this value's wire document, in emission order.
    pub open spec fn wire_fields(self) -> Seq<(Seq<char>, Jv)> {
        field_entry("given_name"@, self.given_name.encoding()) + field_entry(
            "surname"@,
            self.surname.encoding(),
        )
    }
}

impl WireCodec for PayerName {
    open spec fn encoding(self) -> Jv {
        Jv::Object(self.wire_fields())
    }

    open spec fn can_decode(v: Jv) -> bool {
        match v {
            Jv::Object(fs) => req_ok::<String>(fs, "given_name"@) && req_ok::<String>(
                fs,
                "surname"@,
            ),
            _ => false,
        }
    }

    open spec fn decodes_to(v: Jv, t: Self) -> bool {
        match v {
            Jv::Object(fs) => req_rel::<String>(fs, "given_name"@, t.given_name)
                && req_rel::<String>(fs, "surname"@, t.surname),
            _ => false,
        }
    }

    fn encode(&self) -> (r: JsonValue) {
        let mut fs: Vec<(String, JsonValue)> = Vec::new();
        fs.push(("given_name".to_owned(), self.given_name.encode()));
        fs.push(("surname".to_owned(), self.surname.encode()));
        proof {
            crate::json::lemma_jv_of_fields(fs@);
            assert(jv_of_fields(fs@) =~= (*self).wire_fields());
        }
        JsonValue::Object(fs)
    }

    fn decode(v: &JsonValue) -> (r: Result<Self, DecodeError>) {
        match v {
            JsonValue::Object(fields) => {
                let given_name = match get_req::<String>(fields, "given_name") {
                    Ok(x) => x,
                    Err(e) => return Err(e),
                };
                let surname = match get_req::<String>(fields, "surname") {
                    Ok(x) => x,
                    Err(e) => return Err(e),
                };
                Ok(PayerName { given_name, surname })
            },
            _ => Err(DecodeError::WrongType("object".to_owned())),
        }
    }

    proof fn lemma_round_trip(t: Self, u: Self) {
        reveal_strlit("given_name");
        reveal_strlit("surname");
        assert("given_name"@.len() == 10);
        assert("surname"@.len() == 7);
        if Self::decodes_to(t.encoding(), u) {
            assert(u.wire_fields() =~= t.wire_fields());
        }
    }
}

/// A phone number, in its canonical international E.164 numbering plan form.
#[derive(Debug, Clone, PartialEq)]
pub struct PhoneNumber {
    /// The country calling code (CC).
    pub country_code: Option<String>,
    /// The national number.
    pub national_number: String,
}

impl PhoneNumber {
    /// The fields of this value's wire document, in emission order.
    pub open spec fn wire_fields(self) -> Seq<(Seq<char>, Jv)> {
        opt_entry("country_code"@, self.country_code) + field_entry(
            "national_number"@,
            self.national_number.encoding(),
        )
    }
}

impl WireCodec for PhoneNumber {
    open spec fn encoding(self) -> Jv {
        Jv::Object(self.wire_fields())
    }

    open spec fn can_decode(v: Jv) -> bool {
        match v {
            Jv::Object(fs) => opt_ok::<String>(fs, "country_code"@) && req_ok::<String>(
                fs,
                "national_number"@,
            ),
            _ => false,
        }
    }

    open spec fn decodes_to(v: Jv, t: Self) -> bool {
        match v {
            Jv::Object(fs) => opt_rel::<String>(fs, "country_code"@, t.country_code)
                && req_rel::<String>(fs, "national_number"@, t.national_number),
            _ => false,
        }
    }

    fn encode(&self) -> (r: JsonValue) {
        let mut fs: Vec<(String, JsonValue)> = Vec::new();
        if let Some(x) = &self.country_code {
            fs.push(("country_code".to_owned(), x.encode()));
        }
        fs.push(("national_number".to_owned(), self.national_number.encode()));
        proof {
            crate::json::lemma_jv_of_fields(fs@);
            assert(jv_of_fields(fs@) =~= (*self).wire_fields());
        }
        JsonValue::Object(fs)
    }

    fn decode(v: &JsonValue) -> (r: Result<Self, DecodeError>) {
        match v {
            JsonValue::Object(fields) => {
                let country_code = match get_opt::<String>(fields, "country_code") {
                    Ok(x) => x,
                    Err(e) => return Err(e),
                };
                let national_number = match get_req::<String>(fields, "national_number") {
                    Ok(x) => x,
                    Err(e) => return Err(e),
                };
                Ok(PhoneNumber { country_code, national_number })
            },
            _ => Err(DecodeError::WrongType("object".to_owned())),
        }
    }

    proof fn lemma_round_trip(t: Self, u: Self) {
        reveal_strlit("country_code");
        reveal_strlit("national_number");
        assert("country_code"@.len() == 12);
        assert("national_number"@.len() == 15);
        if Self::decodes_to(t.encoding(), u) {
            assert(u.wire_fields() =~= t.wire_fields());
        }
    }
}

/// The merchant who receives payment for a transaction.
#[derive(Debug, Clone, PartialEq)]
pub struct Payee {
    /// The email address of the merchant.
    pub email_address: Option<String>,
    /// The encrypted PayPal account ID of the merchant.
    pub merchant_id: Option<String>,
}

impl Payee {
    /// The fields of this value's wire document, in emission order.
    pub open spec fn wire_fields(self) -> Seq<(Seq<char>, Jv)> {
        opt_entry("email_address"@, self.email_address) + opt_entry(
            "merchant_id"@,
            self.merchant_id,
        )
    }
}

impl WireCodec for Payee {
    open spec fn encoding(self) -> Jv {
        Jv::Object(self.wire_fields())
    }

    open spec fn can_decode(v: Jv) -> bool {
        match v {
            Jv::Object(fs) => opt_ok::<String>(fs, "email_address"@) && opt_ok::<String>(
                fs,
                "merchant_id"@,
            ),
            _ => false,
        }
    }

    open spec fn decodes_to(v: Jv, t: Self) -> bool {
        match v {
            Jv::Object(fs) => opt_rel::<String>(fs, "email_address"@, t.email_address)
                && opt_rel::<String>(fs, "merchant_id"@, t.merchant_id),
            _ => false,
        }
    }

    fn encode(&self) -> (r: JsonValue) {
        let mut fs: Vec<(String, JsonValue)> = Vec::new();
        if let Some(x) = &self.email_address {
            fs.push(("email_address".to_owned(), x.encode()));
        }
        if let Some(x) = &self.merchant_id {
            fs.push(("merchant_id".to_owned(), x.encode()));
        }
        proof {
            crate::json::lemma_jv_of_fields(fs@);
            assert(jv_of_fields(fs@) =~= (*self).wire_fields());
        }
        JsonValue::Object(fs)
    }

    fn decode(v: &JsonValue) -> (r: Result<Self, DecodeError>) {
        match v {
            JsonValue::Object(fields) => {
                let email_address = match get_opt::<String>(fields, "email_address") {
                    Ok(x) => x,
                    Err(e) => return Err(e),
                };
                let merchant_id = match get_opt::<String>(fields, "merchant_id") {
                    Ok(x) => x,
                    Err(e) => return Err(e),
                };
                Ok(Payee { email_address, merchant_id })
            },
            _ => Err(DecodeError::WrongType("object".to_owned())),
        }
    }

    proof fn lemma_round_trip(t: Self, u: Self) {
        reveal_strlit("email_address");
        reveal_strlit("merchant_id");
        assert("email_address"@.len() == 13);
        assert("merchant_id"@.len() == 11);
        if Self::decodes_to(t.encoding(), u) {
            assert(u.wire_fields() =~= t.wire_fields());
        }
    }
}

/// The sub-total decomposition of an amount: item total, tax, shipping,
/// handling, insurance and discounts, each itself monetary.  When present,
/// the parts should sum to the parent amount; this layer carries them as data
/// and leaves that check to the server.
#[derive(Debug, Clone, PartialEq)]
pub struct Breakdown {
    /// The subtotal for all items.
    pub item_total: Option<Money>,
    /// The shipping fee for all items within a given purchase unit.
    pub shipping: Option<Money>,
    /// The handling fee for all items within a given purchase unit.
    pub handling: Option<Money>,
    /// The total tax for all items.
    pub tax_total: Option<Money>,
    /// The insurance fee for all items within a given purchase unit.
    pub insurance: Option<Money>,
    /// The shipping discount for all items within a given purchase unit.
    pub shipping_discount: Option<Money>,
    /// The discount for all items within a given purchase unit.
    pub discount: Option<Money>,
}

impl Breakdown {
    /// The fields of this value's wire document, in emission order.
    pub open spec fn wire_fields(self) -> Seq<(Seq<char>, Jv)> {
        opt_entry("item_total"@, self.item_total) + opt_entry("shipping"@, self.shipping)
            + opt_entry("handling"@, self.handling) + opt_entry("tax_total"@, self.tax_total)
            + opt_entry("insurance"@, self.insurance) + opt_entry(
            "shipping_discount"@,
            self.shipping_discount,
        ) + opt_entry("discount"@, self.discount)
    }
}

impl WireCodec for Breakdown {
    open spec fn encoding(self) -> Jv {
        Jv::Object(self.wire_fields())
    }

    open spec fn can_decode(v: Jv) -> bool {
        match v {
            Jv::Object(fs) => {
                &&& opt_ok::<Money>(fs, "item_total"@)
                &&& opt_ok::<Money>(fs, "shipping"@)
                &&& opt_ok::<Money>(fs, "handling"@)
                &&& opt_ok::<Money>(fs, "tax_total"@)
                &&& opt_ok::<Money>(fs, "insurance"@)
                &&& opt_ok::<Money>(fs, "shipping_discount"@)
                &&& opt_ok::<Money>(fs, "discount"@)
            },
            _ => false,
        }
    }

    open spec fn decodes_to(v: Jv, t: Self) -> bool {
        match v {
            Jv::Object(fs) => {
                &&& opt_rel::<Money>(fs, "item_total"@, t.item_total)
                &&& opt_rel::<Money>(fs, "shipping"@, t.shipping)
                &&& opt_rel::<Money>(fs, "handling"@, t.handling)
                &&& opt_rel::<Money>(fs, "tax_total"@, t.tax_total)
                &&& opt_rel::<Money>(fs, "insurance"@, t.insurance)
                &&& opt_rel::<Money>(fs, "shipping_discount"@, t.shipping_discount)
                &&& opt_rel::<Money>(fs, "discount"@, t.discount)
            },
            _ => false,
        }
    }

    #[verifier::rlimit(100)]
    fn encode(&self) -> (r: JsonValue) {
        let mut fs: Vec<(String, JsonValue)> = Vec::new();
        if let Some(x) = &self.item_total {
            fs.push(("item_total".to_owned(), x.encode()));
        }
        if let Some(x) = &self.shipping {
            fs.push(("shipping".to_owned(), x.encode()));
        }
        if let Some(x) = &self.handling {
            fs.push(("handling".to_owned(), x.encode()));
        }
        if let Some(x) = &self.tax_total {
            fs.push(("tax_total".to_owned(), x.encode()));
        }
        if let Some(x) = &self.insurance {
            fs.push(("insurance".to_owned(), x.encode()));
        }
        if let Some(x) = &self.shipping_discount {
            fs.push(("shipping_discount".to_owned(), x.encode()));
        }
        if let Some(x) = &self.discount {
            fs.push(("discount".to_owned(), x.encode()));
        }
        proof {
            crate::json::lemma_jv_of_fields(fs@);
            assert(jv_of_fields(fs@) =~= (*self).wire_fields());
        }
        JsonValue::Object(fs)
    }

    fn decode(v: &JsonValue) -> (r: Result<Self, DecodeError>) {
        match v {
            JsonValue::Object(fields) => {
                let item_total = match get_opt::<Money>(fields, "item_total") {
                    Ok(x) => x,
                    Err(e) => return Err(e),
                };
                let shipping = match get_opt::<Money>(fields, "shipping") {
                    Ok(x) => x,
                    Err(e) => return Err(e),
                };
                let handling = match get_opt::<Money>(fields, "handling") {
                    Ok(x) => x,
                    Err(e) => return Err(e),
                };
                let tax_total = match get_opt::<Money>(fields, "tax_total") {
                    Ok(x) => x,
                    Err(e) => return Err(e),
                };
                let insurance = match get_opt::<Money>(fields, "insurance") {
                    Ok(x) => x,
                    Err(e) => return Err(e),
                };
                let shipping_discount = match get_opt::<Money>(fields, "shipping_discount") {
                    Ok(x) => x,
                    Err(e) => return Err(e),
                };
                let discount = match get_opt::<Money>(fields, "discount") {
                    Ok(x) => x,
                    Err(e) => return Err(e),
                };
                Ok(
                    Breakdown {
                        item_total,
                        shipping,
                        handling,
                        tax_total,
                        insurance,
                        shipping_discount,
                        discount,
                    },
                )
            },
            _ => Err(DecodeError::WrongType("object".to_owned())),
        }
    }

    #[verifier::rlimit(100)]
    proof fn lemma_round_trip(t: Self, u: Self) {
        reveal_strlit("item_total");
        reveal_strlit("shipping");
        reveal_strlit("handling");
        reveal_strlit("tax_total");
        reveal_strlit("insurance");
        reveal_strlit("shipping_discount");
        reveal_strlit("discount");
        assert("item_total"@.len() == 10);
        assert("shipping"@.len() == 8);
        assert("handling"@.len() == 8);
        assert("tax_total"@.len() == 9);
        assert("insurance"@.len() == 9);
        assert("shipping_discount"@.len() == 17);
        assert("discount"@.len() == 8);
        assert("shipping"@[0] == 's');
        assert("handling"@[0] == 'h');
        assert("discount"@[0] == 'd');
        assert("tax_total"@[0] == 't');
        assert("insurance"@[0] == 'i');
        if let Some(x) = t.item_total {
            Money::lemma_round_trip(x, x);
        }
        if let Some(x) = t.shipping {
            Money::lemma_round_trip(x, x);
        }
        if let Some(x) = t.handling {
            Money::lemma_round_trip(x, x);
        }
        if let Some(x) = t.tax_total {
            Money::lemma_round_trip(x, x);
        }
        if let Some(x) = t.insurance {
            Money::lemma_round_trip(x, x);
        }
        if let Some(x) = t.shipping_discount {
            Money::lemma_round_trip(x, x);
        }
        if let Some(x) = t.discount {
            Money::lemma_round_trip(x, x);
        }
        if Self::decodes_to(t.encoding(), u) {
            if let (Some(x), Some(y)) = (t.item_total, u.item_total) {
                Money::lemma_round_trip(x, y);
            }
            if let (Some(x), Some(y)) = (t.shipping, u.shipping) {
                Money::lemma_round_trip(x, y);
            }
            if let (Some(x), Some(y)) = (t.handling, u.handling) {
                Money::lemma_round_trip(x, y);
            }
            if let (Some(x), Some(y)) = (t.tax_total, u.tax_total) {
                Money::lemma_round_trip(x, y);
            }
            if let (Some(x), Some(y)) = (t.insurance, u.insurance) {
                Money::lemma_round_trip(x, y);
            }
            if let (Some(x), Some(y)) = (t.shipping_discount, u.shipping_discount) {
                Money::lemma_round_trip(x, y);
            }
            if let (Some(x), Some(y)) = (t.discount, u.discount) {
                Money::lemma_round_trip(x, y);
            }
            assert(u.wire_fields() =~= t.wire_fields());
        }
    }
}

/// The total order amount: a currency code, a decimal value carried as text,
/// and an optional breakdown into sub-totals.
#[derive(Debug, Clone, PartialEq)]
pub struct Amount {
    /// The three-character ISO-4217 currency code that identifies the currency.
    pub currency_code: Currency,
    /// The value, as text: an integer for currencies that are not typically
    /// fractional, a decimal fraction otherwise.
    pub value: String,
    /// The breakdown of the amount.
    pub breakdown: Option<Breakdown>,
}

impl Amount {
    /// Creates a new amount with the required values.
    pub fn new(currency: Currency, value: &str) -> (r: Self)
        ensures
            r.currency_code == currency,
            r.value@ == value@,
            r.breakdown is None,
    {
        Amount { currency_code: currency, value: value.to_owned(), breakdown: None }
    }

    /// Creates a new amount with the EUR currency.
    pub fn eur(value: &str) -> (r: Self)
        ensures
            r.currency_code == Currency::EUR,
            r.value@ == value@,
            r.breakdown is None,
    {
        Amount { currency_code: Currency::EUR, value: value.to_owned(), breakdown: None }
    }

    /// Creates a new amount with the USD currency.
    pub fn usd(value: &str) -> (r: Self)
        ensures
            r.currency_code == Currency::USD,
            r.value@ == value@,
            r.breakdown is None,
    {
        Amount { currency_code: Currency::USD, value: value.to_owned(), breakdown: None }
    }

    /// The fields of this value's wire document, in emission order.
    pub open spec fn wire_fields(self) -> Seq<(Seq<char>, Jv)> {
        field_entry("currency_code"@, self.currency_code.encoding()) + field_entry(
            "value"@,
            self.value.encoding(),
        ) + opt_entry("breakdown"@, self.breakdown)
    }
}

impl WireCodec for Amount {
    open spec fn encoding(self) -> Jv {
        Jv::Object(self.wire_fields())
    }

    open spec fn can_decode(v: Jv) -> bool {
        match v {
            Jv::Object(fs) => {
                &&& req_ok::<Currency>(fs, "currency_code"@)
                &&& req_ok::<String>(fs, "value"@)
                &&& opt_ok::<Breakdown>(fs, "breakdown"@)
            },
            _ => false,
        }
    }

    open spec fn decodes_to(v: Jv, t: Self) -> bool {
        match v {
            Jv::Object(fs) => {
                &&& req_rel::<Currency>(fs, "currency_code"@, t.currency_code)
                &&& req_rel::<String>(fs, "value"@, t.value)
                &&& opt_rel::<Breakdown>(fs, "breakdown"@, t.breakdown)
            },
            _ => false,
        }
    }

    fn encode(&self) -> (r: JsonValue) {
        let mut fs: Vec<(String, JsonValue)> = Vec::new();
        fs.push(("currency_code".to_owned(), self.currency_code.encode()));
        fs.push(("value".to_owned(), self.value.encode()));
        if let Some(x) = &self.breakdown {
            fs.push(("breakdown".to_owned(), x.encode()));
        }
        proof {
            crate::json::lemma_jv_of_fields(fs@);
            assert(jv_of_fields(fs@) =~= (*self).wire_fields());
        }
        JsonValue::Object(fs)
    }

    fn decode(v: &JsonValue) -> (r: Result<Self, DecodeError>) {
        match v {
            JsonValue::Object(fields) => {
                let currency_code = match get_req::<Currency>(fields, "currency_code") {
                    Ok(x) => x,
                    Err(e) => return Err(e),
                };
                let value = match get_req::<String>(fields, "value") {
                    Ok(x) => x,
                    Err(e) => return Err(e),
                };
                let breakdown = match get_opt::<Breakdown>(fields, "breakdown") {
                    Ok(x) => x,
                    Err(e) => return Err(e),
                };
                Ok(Amount { currency_code, value, breakdown })
            },
            _ => Err(DecodeError::WrongType("object".to_owned())),
        }
    }

    proof fn lemma_round_trip(t: Self, u: Self) {
        reveal_strlit("currency_code");
        reveal_strlit("value");
        reveal_strlit("breakdown");
        assert("currency_code"@.len() == 13);
        assert("value"@.len() == 5);
        assert("breakdown"@.len() == 9);
        Currency::lemma_round_trip(t.currency_code, u.currency_code);
        if let Some(x) = t.breakdown {
            Breakdown::lemma_round_trip(x, x);
        }
        if Self::decodes_to(t.encoding(), u) {
            if let (Some(x), Some(y)) = (t.breakdown, u.breakdown) {
                Breakdown::lemma_round_trip(x, y);
            }
            assert(u.wire_fields() =~= t.wire_fields());
        }
    }
}

/// An invoice number.
#[derive(Debug, Clone, PartialEq)]
pub struct InvoiceNumber {
    /// The invoice number.
    pub invoice_number: String,
}

impl InvoiceNumber {
    /// The fields of this value's wire document, in emission order.
    pub open spec fn wire_fields(self) -> Seq<(Seq<char>, Jv)> {
        field_entry("invoice_number"@, self.invoice_number.encoding())
    }
}

impl WireCodec for InvoiceNumber {
    open spec fn encoding(self) -> Jv {
        Jv::Object(self.wire_fields())
    }

    open spec fn can_decode(v: Jv) -> bool {
        match v {
            Jv::Object(fs) => req_ok::<String>(fs, "invoice_number"@),
            _ => false,
        }
    }

    open spec fn decodes_to(v: Jv, t: Self) -> bool {
        match v {
            Jv::Object(fs) => req_rel::<String>(fs, "invoice_number"@, t.invoice_number),
            _ => false,
        }
    }

    fn encode(&self) -> (r: JsonValue) {
        let mut fs: Vec<(String, JsonValue)> = Vec::new();
        fs.push(("invoice_number".to_owned(), self.invoice_number.encode()));
        proof {
            crate::json::lemma_jv_of_fields(fs@);
            assert(jv_of_fields(fs@) =~= (*self).wire_fields());
        }
        JsonValue::Object(fs)
    }

    fn decode(v: &JsonValue) -> (r: Result<Self, DecodeError>) {
        match v {
            JsonValue::Object(fields) => {
                let invoice_number = match get_req::<String>(fields, "invoice_number") {
                    Ok(x) => x,
                    Err(e) => return Err(e),
                };
                Ok(InvoiceNumber { invoice_number })
            },
            _ => Err(DecodeError::WrongType("object".to_owned())),
        }
    }

    proof fn lemma_round_trip(t: Self, u: Self) {
        if Self::decodes_to(t.encoding(), u) {
            assert(u.wire_fields() =~= t.wire_fields());
        }
    }
}

/// An item that the customer purchases from the merchant.
#[derive(Debug, Clone, PartialEq)]
pub struct Item {
    /// The item name or title.
    pub name: String,
    /// The item quantity. Must be a whole number.
    pub quantity: String,
    /// The detailed item description.
    pub description: Option<String>,
    /// The stock keeping unit (SKU) for the item.
    pub sku: Option<String>,
    /// The URL to the item being purchased.
    pub url: Option<String>,
    /// The item category type.
    pub category: Option<ItemCategoryType>,
    /// The URL of the item's image.
    pub image_url: Option<String>,
    /// The item price or rate per unit.
    pub unit_amount: Money,
    /// The item tax for each unit.
    pub tax: Option<Money>,
    /// The Universal Product Code of the item.
    pub upc: Option<ItemUpc>,
}

impl Item {
    /// The fields of this value's wire document, in emission order.
    pub open spec fn wire_fields(self) -> Seq<(Seq<char>, Jv)> {
        field_entry("name"@, self.name.encoding()) + field_entry("quantity"@, self.quantity.encoding())
            + opt_entry("description"@, self.description) + opt_entry("sku"@, self.sku)
            + opt_entry("url"@, self.url) + opt_entry("category"@, self.category) + opt_entry(
            "image_url"@,
            self.image_url,
        ) + field_entry("unit_amount"@, self.unit_amount.encoding()) + opt_entry("tax"@, self.tax)
            + opt_entry("upc"@, self.upc)
    }
}

impl WireCodec for Item {
    open spec fn encoding(self) -> Jv {
        Jv::Object(self.wire_fields())
    }

    open spec fn can_decode(v: Jv) -> bool {
        match v {
            Jv::Object(fs) => {
                &&& req_ok::<String>(fs, "name"@)
                &&& req_ok::<String>(fs, "quantity"@)
                &&& opt_ok::<String>(fs, "description"@)
                &&& opt_ok::<String>(fs, "sku"@)
                &&& opt_ok::<String>(fs, "url"@)
                &&& opt_ok::<ItemCategoryType>(fs, "category"@)
                &&& opt_ok::<String>(fs, "image_url"@)
                &&& req_ok::<Money>(fs, "unit_amount"@)
                &&& opt_ok::<Money>(fs, "tax"@)
                &&& opt_ok::<ItemUpc>(fs, "upc"@)
            },
            _ => false,
        }
    }

    open spec fn decodes_to(v: Jv, t: Self) -> bool {
        match v {
            Jv::Object(fs) => {
                &&& req_rel::<String>(fs, "name"@, t.name)
                &&& req_rel::<String>(fs, "quantity"@, t.quantity)
                &&& opt_rel::<String>(fs, "description"@, t.description)
                &&& opt_rel::<String>(fs, "sku"@, t.sku)
                &&& opt_rel::<String>(fs, "url"@, t.url)
                &&& opt_rel::<ItemCategoryType>(fs, "category"@, t.category)
                &&& opt_rel::<String>(fs, "image_url"@, t.image_url)
                &&& req_rel::<Money>(fs, "unit_amount"@, t.unit_amount)
                &&& opt_rel::<Money>(fs, "tax"@, t.tax)
                &&& opt_rel::<ItemUpc>(fs, "upc"@, t.upc)
            },
            _ => false,
        }
    }

    #[verifier::rlimit(100)]
    fn encode(&self) -> (r: JsonValue) {
        let mut fs: Vec<(String, JsonValue)> = Vec::new();
        fs.push(("name".to_owned(), self.name.encode()));
        fs.push(("quantity".to_owned(), self.quantity.encode()));
        if let Some(x) = &self.description {
            fs.push(("description".to_owned(), x.encode()));
        }
        if let Some(x) = &self.sku {
            fs.push(("sku".to_owned(), x.encode()));
        }
        proof {
            assert(jv_of_fields(fs@) =~= field_entry("name"@, self.name.encoding()) + field_entry(
                "quantity"@,
                self.quantity.encoding(),
            ) + opt_entry("description"@, self.description) + opt_entry("sku"@, self.sku));
        }
        if let Some(x) = &self.url {
            fs.push(("url".to_owned(), x.encode()));
        }
        if let Some(x) = &self.category {
            fs.push(("category".to_owned(), x.encode()));
        }
        if let Some(x) = &self.image_url {
            fs.push(("image_url".to_owned(), x.encode()));
        }
        proof {
            assert(jv_of_fields(fs@) =~= field_entry("name"@, self.name.encoding()) + field_entry(
                "quantity"@,
                self.quantity.encoding(),
            ) + opt_entry("description"@, self.description) + opt_entry("sku"@, self.sku)
                + opt_entry("url"@, self.url) + opt_entry("category"@, self.category) + opt_entry(
                "image_url"@,
                self.image_url,
            ));
        }
        fs.push(("unit_amount".to_owned(), self.unit_amount.encode()));
        if let Some(x) = &self.tax {
            fs.push(("tax".to_owned(), x.encode()));
        }
        if let Some(x) = &self.upc {
            fs.push(("upc".to_owned(), x.encode()));
        }
        proof {
            assert(jv_of_fields(fs@) =~= (*self).wire_fields());
        }
        JsonValue::Object(fs)
    }

    fn decode(v: &JsonValue) -> (r: Result<Self, DecodeError>) {
        match v {
            JsonValue::Object(fields) => {
                let name = match get_req::<String>(fields, "name") {
                    Ok(x) => x,
                    Err(e) => return Err(e),
                };
                let quantity = match get_req::<String>(fields, "quantity") {
                    Ok(x) => x,
                    Err(e) => return Err(e),
                };
                let description = match get_opt::<String>(fields, "description") {
                    Ok(x) => x,
                    Err(e) => return Err(e),
                };
                let sku = match get_opt::<String>(fields, "sku") {
                    Ok(x) => x,
                    Err(e) => return Err(e),
                };
                let url = match get_opt::<String>(fields, "url") {
                    Ok(x) => x,
                    Err(e) => return Err(e),
                };
                let category = match get_opt::<ItemCategoryType>(fields, "category") {
                    Ok(x) => x,
                    Err(e) => return Err(e),
                };
                let image_url = match get_opt::<String>(fields, "image_url") {
                    Ok(x) => x,
                    Err(e) => return Err(e),
                };
                let unit_amount = match get_req::<Money>(fields, "unit_amount") {
                    Ok(x) => x,
                    Err(e) => return Err(e),
                };
                let tax = match get_opt::<Money>(fields, "tax") {
                    Ok(x) => x,
                    Err(e) => return Err(e),
                };
                let upc = match get_opt::<ItemUpc>(fields, "upc") {
                    Ok(x) => x,
                    Err(e) => return Err(e),
                };
                Ok(
                    Item {
                        name,
                        quantity,
                        description,
                        sku,
                        url,
                        category,
                        image_url,
                        unit_amount,
                        tax,
                        upc,
                    },
                )
            },
            _ => Err(DecodeError::WrongType("object".to_owned())),
        }
    }

    #[verifier::rlimit(100)]
    proof fn lemma_round_trip(t: Self, u: Self) {
        reveal_strlit("name");
        reveal_strlit("quantity");
        reveal_strlit("description");
        reveal_strlit("sku");
        reveal_strlit("url");
        reveal_strlit("category");
        reveal_strlit("image_url");
        reveal_strlit("unit_amount");
        reveal_strlit("tax");
        reveal_strlit("upc");
        assert("name"@.len() == 4);
        assert("quantity"@.len() == 8);
        assert("description"@.len() == 11);
        assert("sku"@.len() == 3);
        assert("url"@.len() == 3);
        assert("category"@.len() == 8);
        assert("image_url"@.len() == 9);
        assert("unit_amount"@.len() == 11);
        assert("tax"@.len() == 3);
        assert("upc"@.len() == 3);
        assert("sku"@[0] == 's');
        assert("url"@[0] == 'u');
        assert("tax"@[0] == 't');
        assert("upc"@[0] == 'u');
        assert("url"@[1] == 'r');
        assert("upc"@[1] == 'p');
        assert("quantity"@[0] == 'q');
        assert("category"@[0] == 'c');
        assert("description"@[0] == 'd');
        assert("unit_amount"@[0] == 'u');
        Money::lemma_round_trip(t.unit_amount, u.unit_amount);
        if let Some(x) = t.category {
            ItemCategoryType::lemma_round_trip(x, x);
        }
        if let Some(x) = t.tax {
            Money::lemma_round_trip(x, x);
        }
        if let Some(x) = t.upc {
            ItemUpc::lemma_round_trip(x, x);
        }
        if Self::decodes_to(t.encoding(), u) {
            if let (Some(x), Some(y)) = (t.category, u.category) {
                ItemCategoryType::lemma_round_trip(x, y);
            }
            if let (Some(x), Some(y)) = (t.tax, u.tax) {
                Money::lemma_round_trip(x, y);
            }
            if let (Some(x), Some(y)) = (t.upc, u.upc) {
                ItemUpc::lemma_round_trip(x, y);
            }
            assert(opt_entry("description"@, u.description) == opt_entry(
                "description"@,
                t.description,
            ));
            assert(opt_entry("sku"@, u.sku) == opt_entry("sku"@, t.sku));
            assert(opt_entry("url"@, u.url) == opt_entry("url"@, t.url));
            assert(opt_entry("category"@, u.category) == opt_entry("category"@, t.category));
            assert(opt_entry("image_url"@, u.image_url) == opt_entry("image_url"@, t.image_url));
            assert(opt_entry("tax"@, u.tax) == opt_entry("tax"@, t.tax));
            assert(opt_entry("upc"@, u.upc) == opt_entry("upc"@, t.upc));
            assert(u.wire_fields() =~= t.wire_fields());
        }
    }
}

/// Assembles an [`Item`] step by step: the required fields must all be
/// supplied before `build` succeeds, and optional fields left unset stay
/// absent from the finished item.
#[derive(Debug, Clone, PartialEq)]
pub struct ItemBuilder {
    /// The staged item name.
    pub name: Option<String>,
    /// The staged quantity.
    pub quantity: Option<String>,
    /// The staged description.
    pub description: Option<String>,
    /// The staged SKU.
    pub sku: Option<String>,
    /// The staged URL.
    pub url: Option<String>,
    /// The staged category.
    pub category: Option<ItemCategoryType>,
    /// The staged image URL.
    pub image_url: Option<String>,
    /// The staged unit price.
    pub unit_amount: Option<Money>,
    /// The staged unit tax.
    pub tax: Option<Money>,
    /// The staged Universal Product Code.
    pub upc: Option<ItemUpc>,
}

impl ItemBuilder {
    /// An empty builder: nothing staged yet.
    pub fn new() -> (r: Self)
        ensures
            r == (ItemBuilder {
                name: None,
                quantity: None,
                description: None,
                sku: None,
                url: None,
                category: None,
                image_url: None,
                unit_amount: None,
                tax: None,
                upc: None,
            }),
    {
        ItemBuilder {
            name: None,
            quantity: None,
            description: None,
            sku: None,
            url: None,
            category: None,
            image_url: None,
            unit_amount: None,
            tax: None,
            upc: None,
        }
    }

    /// Stages the item name.
    pub fn name(self, value: String) -> (r: Self)
        ensures
            r == (ItemBuilder { name: Some(value), ..self }),
    {
        ItemBuilder { name: Some(value), ..self }
    }

    /// Stages the quantity.
    pub fn quantity(self, value: String) -> (r: Self)
        ensures
            r == (ItemBuilder { quantity: Some(value), ..self }),
    {
        ItemBuilder { quantity: Some(value), ..self }
    }

    /// Stages the description.
    pub fn description(self, value: String) -> (r: Self)
        ensures
            r == (ItemBuilder { description: Some(value), ..self }),
    {
        ItemBuilder { description: Some(value), ..self }
    }

    /// Stages the SKU.
    pub fn sku(self, value: String) -> (r: Self)
        ensures
            r == (ItemBuilder { sku: Some(value), ..self }),
    {
        ItemBuilder { sku: Some(value), ..self }
    }

    /// Stages the URL.
    pub fn url(self, value: String) -> (r: Self)
        ensures
            r == (ItemBuilder { url: Some(value), ..self }),
    {
        ItemBuilder { url: Some(value), ..self }
    }

    /// Stages the category.
    pub fn category(self, value: ItemCategoryType) -> (r: Self)
        ensures
            r == (ItemBuilder { category: Some(value), ..self }),
    {
        ItemBuilder { category: Some(value), ..self }
    }

    /// Stages the image URL.
    pub fn image_url(self, value: String) -> (r: Self)
        ensures
            r == (ItemBuilder { image_url: Some(value), ..self }),
    {
        ItemBuilder { image_url: Some(value), ..self }
    }

    /// Stages the unit price.
    pub fn unit_amount(self, value: Money) -> (r: Self)
        ensures
            r == (ItemBuilder { unit_amount: Some(value), ..self }),
    {
        ItemBuilder { unit_amount: Some(value), ..self }
    }

    /// Stages the unit tax.
    pub fn tax(self, value: Money) -> (r: Self)
        ensures
            r == (ItemBuilder { tax: Some(value), ..self }),
    {
        ItemBuilder { tax: Some(value), ..self }
    }

    /// Stages the Universal Product Code.
    pub fn upc(self, value: ItemUpc) -> (r: Self)
        ensures
            r == (ItemBuilder { upc: Some(value), ..self }),
    {
        ItemBuilder { upc: Some(value), ..self }
    }

    /// Finishes the item.  Succeeds exactly when every required field —
    /// `name`, `quantity` and `unit_amount` — was supplied; the error names
    /// the first missing one.  Optional fields never set stay absent.
    pub fn build(self) -> (r: Result<Item, BuildError>)
        ensures
            r is Ok <==> (self.name is Some && self.quantity is Some && self.unit_amount is Some),
            match r {
                Ok(i) => {
                    &&& Some(i.name) == self.name
                    &&& Some(i.quantity) == self.quantity
                    &&& Some(i.unit_amount) == self.unit_amount
                    &&& i.description == self.description
                    &&& i.sku == self.sku
                    &&& i.url == self.url
                    &&& i.category == self.category
                    &&& i.image_url == self.image_url
                    &&& i.tax == self.tax
                    &&& i.upc == self.upc
                },
                Err(BuildError::UninitializedField(f)) => f@ == if self.name is None {
                    "name"@
                } else if self.quantity is None {
                    "quantity"@
                } else {
                    "unit_amount"@
                },
            },
    {
        let name = match self.name {
            Some(x) => x,
            None => {
                return Err(BuildError::UninitializedField("name".to_owned()));
            },
        };
        let quantity = match self.quantity {
            Some(x) => x,
            None => {
                return Err(BuildError::UninitializedField("quantity".to_owned()));
            },
        };
        let unit_amount = match self.unit_amount {
            Some(x) => x,
            None => {
                return Err(BuildError::UninitializedField("unit_amount".to_owned()));
            },
        };
        Ok(
            Item {
                name,
                quantity,
                description: self.description,
                sku: self.sku,
                url: self.url,
                category: self.category,
                image_url: self.image_url,
                unit_amount,
                tax: self.tax,
                upc: self.upc,
            },
        )
    }
}

/// The customer's tax ID type. Supported for the PayPal payment method only.
#[allow(non_camel_case_types)]
#[derive(Debug, Clone, Copy, PartialEq, Eq)]
pub enum TaxIdType {
    /// The individual tax ID type.
    BR_CPF,
    /// The business tax ID type.
    BR_CNPJ,
}

impl TaxIdType {
    /// The wire token of this value.
    pub open spec fn spec_token(self) -> Seq<char> {
        match self {
            TaxIdType::BR_CPF => "BR_CPF"@,
            TaxIdType::BR_CNPJ => "BR_CNPJ"@,
        }
    }

    /// Whether `s` is one of the documented tokens.
    pub open spec fn spec_is_token(s: Seq<char>) -> bool {
        s == "BR_CPF"@ || s == "BR_CNPJ"@
    }
}

impl WireCodec for TaxIdType {
    open spec fn encoding(self) -> Jv {
        Jv::Str(self.spec_token())
    }

    open spec fn can_decode(v: Jv) -> bool {
        match v {
            Jv::Str(s) => TaxIdType::spec_is_token(s),
            _ => false,
        }
    }

    open spec fn decodes_to(v: Jv, t: Self) -> bool {
        v == Jv::Str(t.spec_token())
    }

    fn encode(&self) -> (r: JsonValue) {
        let tok = match self {
            TaxIdType::BR_CPF => "BR_CPF",
            TaxIdType::BR_CNPJ => "BR_CNPJ",
        };
        JsonValue::Str(tok.to_owned())
    }

    fn decode(v: &JsonValue) -> (r: Result<Self, DecodeError>)
        ensures
            match r {
                Err(DecodeError::UnknownToken(s)) => v@ == Jv::Str(s@)
                    && !TaxIdType::spec_is_token(s@),
                Err(DecodeError::WrongType(_)) => !(v@ is Str),
                Err(DecodeError::MissingField(_)) => false,
                Ok(_) => true,
            },
    {
        match v {
            JsonValue::Str(s) => {
                let c = s.as_str();
                if str_eq(c, "BR_CPF") {
                    Ok(TaxIdType::BR_CPF)
                } else if str_eq(c, "BR_CNPJ") {
                    Ok(TaxIdType::BR_CNPJ)
                } else {
                    Err(DecodeError::UnknownToken(s.clone()))
                }
            },
            _ => Err(DecodeError::WrongType("string".to_owned())),
        }
    }

    proof fn lemma_round_trip(t: Self, u: Self) {
    }
}

/// The tax information of the payer.
#[derive(Debug, Clone, PartialEq)]
pub struct TaxInfo {
    /// The customer's tax ID.
    pub tax_id: String,
    /// The customer's tax ID type.
    pub tax_id_type: TaxIdType,
}

impl TaxInfo {
    /// The fields of this value's wire document, in emission order.
    pub open spec fn wire_fields(self) -> Seq<(Seq<char>, Jv)> {
        field_entry("tax_id"@, self.tax_id.encoding()) + field_entry("tax_id_type"@, self.tax_id_type.encoding())
    }
}

impl WireCodec for TaxInfo {
    open spec fn encoding(self) -> Jv {
        Jv::Object(self.wire_fields())
    }

    open spec fn can_decode(v: Jv) -> bool {
        match v {
            Jv::Object(fs) => {
                &&& req_ok::<String>(fs, "tax_id"@)
                &&& req_ok::<TaxIdType>(fs, "tax_id_type"@)
            },
            _ => false,
        }
    }

    open spec fn decodes_to(v: Jv, t: Self) -> bool {
        match v {
            Jv::Object(fs) => {
                &&& req_rel::<String>(fs, "tax_id"@, t.tax_id)
                &&& req_rel::<TaxIdType>(fs, "tax_id_type"@, t.tax_id_type)
            },
            _ => false,
        }
    }

    fn encode(&self) -> (r: JsonValue) {
        let mut fs: Vec<(String, JsonValue)> = Vec::new();
        fs.push(("tax_id".to_owned(), self.tax_id.encode()));
        fs.push(("tax_id_type".to_owned(), self.tax_id_type.encode()));
        proof {
            crate::json::lemma_jv_of_fields(fs@);
            assert(jv_of_fields(fs@) =~= (*self).wire_fields());
        }
        JsonValue::Object(fs)
    }

    fn decode(v: &JsonValue) -> (r: Result<Self, DecodeError>) {
        match v {
            JsonValue::Object(fields) => {
                let tax_id = match get_req::<String>(fields, "tax_id") {
                    Ok(x) => x,
                    Err(e) => return Err(e),
                };
                let tax_id_type = match get_req::<TaxIdType>(fields, "tax_id_type") {
                    Ok(x) => x,
                    Err(e) => return Err(e),
                };
                Ok(TaxInfo { tax_id, tax_id_type })
            },
            _ => Err(DecodeError::WrongType("object".to_owned())),
        }
    }

    proof fn lemma_round_trip(t: Self, u: Self) {
        reveal_strlit("tax_id");
        reveal_strlit("tax_id_type");
        assert("tax_id"@.len() == 6);
        assert("tax_id_type"@.len() == 11);
        TaxIdType::lemma_round_trip(t.tax_id_type, u.tax_id_type);
        if Self::decodes_to(t.encoding(), u) {
            assert(u.wire_fields() =~= t.wire_fields());
        }
    }
}

/// The phone number of the customer.
#[derive(Debug, Clone, PartialEq)]
pub struct Phone {
    /// The phone type.
    pub phone_type: Option<PhoneType>,
    /// The phone number.
    pub phone_number: PhoneNumber,
}

impl Phone {
    /// The fields of this value's wire document, in emission order.
    pub open spec fn wire_fields(self) -> Seq<(Seq<char>, Jv)> {
        opt_entry("phone_type"@, self.phone_type) + field_entry("phone_number"@, self.phone_number.encoding())
    }
}

impl WireCodec for Phone {
    open spec fn encoding(self) -> Jv {
        Jv::Object(self.wire_fields())
    }

    open spec fn can_decode(v: Jv) -> bool {
        match v {
            Jv::Object(fs) => {
                &&& opt_ok::<PhoneType>(fs, "phone_type"@)
                &&& req_ok::<PhoneNumber>(fs, "phone_number"@)
            },
            _ => false,
        }
    }

    open spec fn decodes_to(v: Jv, t: Self) -> bool {
        match v {
            Jv::Object(fs) => {
                &&& opt_rel::<PhoneType>(fs, "phone_type"@, t.phone_type)
                &&& req_rel::<PhoneNumber>(fs, "phone_number"@, t.phone_number)
            },
            _ => false,
        }
    }

    fn encode(&self) -> (r: JsonValue) {
        let mut fs: Vec<(String, JsonValue)> = Vec::new();
        if let Some(x) = &self.phone_type {
            fs.push(("phone_type".to_owned(), x.encode()));
        }
        fs.push(("phone_number".to_owned(), self.phone_number.encode()));
        proof {
            crate::json::lemma_jv_of_fields(fs@);
            assert(jv_of_fields(fs@) =~= (*self).wire_fields());
        }
        JsonValue::Object(fs)
    }

    fn decode(v: &JsonValue) -> (r: Result<Self, DecodeError>) {
        match v {
            JsonValue::Object(fields) => {
                let phone_type = match get_opt::<PhoneType>(fields, "phone_type") {
                    Ok(x) => x,
                    Err(e) => return Err(e),
                };
                let phone_number = match get_req::<PhoneNumber>(fields, "phone_number") {
                    Ok(x) => x,
                    Err(e) => return Err(e),
                };
                Ok(Phone { phone_type, phone_number })
            },
            _ => Err(DecodeError::WrongType("object".to_owned())),
        }
    }

    proof fn lemma_round_trip(t: Self, u: Self) {
        reveal_strlit("phone_type");
        reveal_strlit("phone_number");
        assert("phone_type"@.len() == 10);
        assert("phone_number"@.len() == 12);
        if let Some(x) = t.phone_type {
            PhoneType::lemma_round_trip(x, x);
        }
        PhoneNumber::lemma_round_trip(t.phone_number, u.phone_number);
        if Self::decodes_to(t.encoding(), u) {
            if let (Some(x), Some(y)) = (t.phone_type, u.phone_type) {
                PhoneType::lemma_round_trip(x, y);
            }
            assert(u.wire_fields() =~= t.wire_fields());
        }
    }
}

/// The customer who approves and pays for the order, also known as the payer.
#[derive(Debug, Clone, PartialEq)]
pub struct Payer {
    /// The name of the payer.
    pub name: Option<PayerName>,
    /// The email address of the payer.
    pub email_address: Option<String>,
    /// The PayPal-assigned ID for the payer.
    pub payer_id: Option<String>,
    /// The phone number of the customer.
    pub phone: Option<Phone>,
    /// The birth date of the payer in `YYYY-MM-DD` format.
    pub birth_date: Option<String>,
    /// The tax information of the payer. Required only for Brazilian payers.
    pub tax_info: Option<TaxInfo>,
    /// The address of the payer.
    pub address: Option<Address>,
}

impl Payer {
    /// The fields of this value's wire document, in emission order.
    pub open spec fn wire_fields(self) -> Seq<(Seq<char>, Jv)> {
        opt_entry("name"@, self.name) + opt_entry("email_address"@, self.email_address) + opt_entry("payer_id"@, self.payer_id) + opt_entry("phone"@, self.phone) + opt_entry("birth_date"@, self.birth_date) + opt_entry("tax_info"@, self.tax_info) + opt_entry("address"@, self.address)
    }
}

impl WireCodec for Payer {
    open spec fn encoding(self) -> Jv {
        Jv::Object(self.wire_fields())
    }

    open spec fn can_decode(v: Jv) -> bool {
        match v {
            Jv::Object(fs) => {
                &&& opt_ok::<PayerName>(fs, "name"@)
                &&& opt_ok::<String>(fs, "email_address"@)
                &&& opt_ok::<String>(fs, "payer_id"@)
                &&& opt_ok::<Phone>(fs, "phone"@)
                &&& opt_ok::<String>(fs, "birth_date"@)
                &&& opt_ok::<TaxInfo>(fs, "tax_info"@)
                &&& opt_ok::<Address>(fs, "address"@)
            },
            _ => false,
        }
    }

    open spec fn decodes_to(v: Jv, t: Self) -> bool {
        match v {
            Jv::Object(fs) => {
                &&& opt_rel::<PayerName>(fs, "name"@, t.name)
                &&& opt_rel::<String>(fs, "email_address"@, t.email_address)
                &&& opt_rel::<String>(fs, "payer_id"@, t.payer_id)
                &&& opt_rel::<Phone>(fs, "phone"@, t.phone)
                &&& opt_rel::<String>(fs, "birth_date"@, t.birth_date)
                &&& opt_rel::<TaxInfo>(fs, "tax_info"@, t.tax_info)
                &&& opt_rel::<Address>(fs, "address"@, t.address)
            },
            _ => false,
        }
    }

    fn encode(&self) -> (r: JsonValue) {
        let mut fs: Vec<(String, JsonValue)> = Vec::new();
        push_opt(&mut fs, "name", &self.name);
        push_opt(&mut fs, "email_address", &self.email_address);
        push_opt(&mut fs, "payer_id", &self.payer_id);
        push_opt(&mut fs, "phone", &self.phone);
        push_opt(&mut fs, "birth_date", &self.birth_date);
        push_opt(&mut fs, "tax_info", &self.tax_info);
        push_opt(&mut fs, "address", &self.address);
        proof {
            crate::json::lemma_concat_left_empty(opt_entry("name"@, (*self).name));
            assert(jv_of_fields(fs@) == (*self).wire_fields());
        }
        JsonValue::Object(fs)
    }

    fn decode(v: &JsonValue) -> (r: Result<Self, DecodeError>) {
        match v {
            JsonValue::Object(fields) => {
                let name = match get_opt::<PayerName>(fields, "name") {
                    Ok(x) => x,
                    Err(e) => return Err(e),
                };
                let email_address = match get_opt::<String>(fields, "email_address") {
                    Ok(x) => x,
                    Err(e) => return Err(e),
                };
                let payer_id = match get_opt::<String>(fields, "payer_id") {
                    Ok(x) => x,
                    Err(e) => return Err(e),
                };
                let phone = match get_opt::<Phone>(fields, "phone") {
                    Ok(x) => x,
                    Err(e) => return Err(e),
                };
                let birth_date = match get_opt::<String>(fields, "birth_date") {
                    Ok(x) => x,
                    Err(e) => return Err(e),
                };
                let tax_info = match get_opt::<TaxInfo>(fields, "tax_info") {
                    Ok(x) => x,
                    Err(e) => return Err(e),
                };
                let address = match get_opt::<Address>(fields, "address") {
                    Ok(x) => x,
                    Err(e) => return Err(e),
                };
                Ok(Payer { name, email_address, payer_id, phone, birth_date, tax_info, address })
            },
            _ => Err(DecodeError::WrongType("object".to_owned())),
        }
    }

    #[verifier::rlimit(100)]
    proof fn lemma_round_trip(t: Self, u: Self) {
        reveal_strlit("name");
        reveal_strlit("email_address");
        reveal_strlit("payer_id");
        reveal_strlit("phone");
        reveal_strlit("birth_date");
        reveal_strlit("tax_info");
        reveal_strlit("address");
        assert("name"@.len() == 4);
        assert("email_address"@.len() == 13);
        assert("payer_id"@.len() == 8);
        assert("phone"@.len() == 5);
        assert("birth_date"@.len() == 10);
        assert("tax_info"@.len() == 8);
        assert("address"@.len() == 7);
        assert("payer_id"@[0] == 'p');
        assert("tax_info"@[0] == 't');
        if let Some(x) = t.name {
            PayerName::lemma_round_trip(x, x);
        }
        if let Some(x) = t.phone {
            Phone::lemma_round_trip(x, x);
        }
        if let Some(x) = t.tax_info {
            TaxInfo::lemma_round_trip(x, x);
        }
        if let Some(x) = t.address {
            Address::lemma_round_trip(x, x);
        }
        if Self::decodes_to(t.encoding(), u) {
            if let (Some(x), Some(y)) = (t.name, u.name) {
                PayerName::lemma_round_trip(x, y);
            }
            if let (Some(x), Some(y)) = (t.phone, u.phone) {
                Phone::lemma_round_trip(x, y);
            }
            if let (Some(x), Some(y)) = (t.tax_info, u.tax_info) {
                TaxInfo::lemma_round_trip(x, y);
            }
            if let (Some(x), Some(y)) = (t.address, u.address) {
                Address::lemma_round_trip(x, y);
            }
            assert(u.wire_fields() =~= t.wire_fields());
        }
    }
}

/// A fee, commission, tip or donation.
#[derive(Debug, Clone, PartialEq)]
pub struct PlatformFee {
    /// The fee for this transaction.
    pub amount: Money,
    /// The merchant who receives payment for this transaction.
    pub payee: Option<Payee>,
}

impl PlatformFee {
    /// The fields of this value's wire document, in emission order.
    pub open spec fn wire_fields(self) -> Seq<(Seq<char>, Jv)> {
        field_entry("amount"@, self.amount.encoding()) + opt_entry("payee"@, self.payee)
    }
}

impl WireCodec for PlatformFee {
    open spec fn encoding(self) -> Jv {
        Jv::Object(self.wire_fields())
    }

    open spec fn can_decode(v: Jv) -> bool {
        match v {
            Jv::Object(fs) => {
                &&& req_ok::<Money>(fs, "amount"@)
                &&& opt_ok::<Payee>(fs, "payee"@)
            },
            _ => false,
        }
    }

    open spec fn decodes_to(v: Jv, t: Self) -> bool {
        match v {
            Jv::Object(fs) => {
                &&& req_rel::<Money>(fs, "amount"@, t.amount)
                &&& opt_rel::<Payee>(fs, "payee"@, t.payee)
            },
            _ => false,
        }
    }

    fn encode(&self) -> (r: JsonValue) {
        let mut fs: Vec<(String, JsonValue)> = Vec::new();
        fs.push(("amount".to_owned(), self.amount.encode()));
        if let Some(x) = &self.payee {
            fs.push(("payee".to_owned(), x.encode()));
        }
        proof {
            crate::json::lemma_jv_of_fields(fs@);
            assert(jv_of_fields(fs@) =~= (*self).wire_fields());
        }
        JsonValue::Object(fs)
    }

    fn decode(v: &JsonValue) -> (r: Result<Self, DecodeError>) {
        match v {
            JsonValue::Object(fields) => {
                let amount = match get_req::<Money>(fields, "amount") {
                    Ok(x) => x,
                    Err(e) => return Err(e),
                };
                let payee = match get_opt::<Payee>(fields, "payee") {
                    Ok(x) => x,
                    Err(e) => return Err(e),
                };
                Ok(PlatformFee { amount, payee })
            },
            _ => Err(DecodeError::WrongType("object".to_owned())),
        }
    }

    proof fn lemma_round_trip(t: Self, u: Self) {
        reveal_strlit("amount");
        reveal_strlit("payee");
        assert("amount"@.len() == 6);
        assert("payee"@.len() == 5);
        Money::lemma_round_trip(t.amount, u.amount);
        if let Some(x) = t.payee {
            Payee::lemma_round_trip(x, x);
        }
        if Self::decodes_to(t.encoding(), u) {
            if let (Some(x), Some(y)) = (t.payee, u.payee) {
                Payee::lemma_round_trip(x, y);
            }
            assert(u.wire_fields() =~= t.wire_fields());
        }
    }
}

/// How funds held on behalf of the merchant are disbursed.
#[derive(Debug, Clone, Copy, PartialEq, Eq)]
pub enum DisbursementMode {
    /// The funds are released to the merchant immediately.
    Instant,
    /// The funds are held for a finite number of days before release.
    Delayed,
}

impl DisbursementMode {
    /// The wire token of this value.
    pub open spec fn spec_token(self) -> Seq<char> {
        match self {
            DisbursementMode::Instant => "INSTANT"@,
            DisbursementMode::Delayed => "DELAYED"@,
        }
    }

    /// Whether `s` is one of the documented tokens.
    pub open spec fn spec_is_token(s: Seq<char>) -> bool {
        s == "INSTANT"@ || s == "DELAYED"@
    }
}

impl WireCodec for DisbursementMode {
    open spec fn encoding(self) -> Jv {
        Jv::Str(self.spec_token())
    }

    open spec fn can_decode(v: Jv) -> bool {
        match v {
            Jv::Str(s) => DisbursementMode::spec_is_token(s),
            _ => false,
        }
    }

    open spec fn decodes_to(v: Jv, t: Self) -> bool {
        v == Jv::Str(t.spec_token())
    }

    fn encode(&self) -> (r: JsonValue) {
        let tok = match self {
            DisbursementMode::Instant => "INSTANT",
            DisbursementMode::Delayed => "DELAYED",
        };
        JsonValue::Str(tok.to_owned())
    }

    fn decode(v: &JsonValue) -> (r: Result<Self, DecodeError>)
        ensures
            match r {
                Err(DecodeError::UnknownToken(s)) => v@ == Jv::Str(s@)
                    && !DisbursementMode::spec_is_token(s@),
                Err(DecodeError::WrongType(_)) => !(v@ is Str),
                Err(DecodeError::MissingField(_)) => false,
                Ok(_) => true,
            },
    {
        match v {
            JsonValue::Str(s) => {
                let c = s.as_str();
                if str_eq(c, "INSTANT") {
                    Ok(DisbursementMode::Instant)
                } else if str_eq(c, "DELAYED") {
                    Ok(DisbursementMode::Delayed)
                } else {
                    Err(DecodeError::UnknownToken(s.clone()))
                }
            },
            _ => Err(DecodeError::WrongType("string".to_owned())),
        }
    }

    proof fn lemma_round_trip(t: Self, u: Self) {
    }
}

/// Any additional payment instructions for PayPal Commerce Platform customers.
#[derive(Debug, Clone, PartialEq)]
pub struct PaymentInstruction {
    /// An array of various fees, commissions, tips, or donations.
    pub platform_fees: Option<Vec<PlatformFee>>,
    /// Triggers a specific pricing rate or plan for the payment transaction.
    pub payee_pricing_tier_id: Option<String>,
    /// An FX identifier returned by PayPal, used to honor an FX rate when the
    /// amount is settled into the payee account.
    pub payee_receivable_fx_rate_id: Option<String>,
    /// How the funds held on behalf of the merchant are disbursed.
    pub disbursement_mode: Option<DisbursementMode>,
}

impl PaymentInstruction {
    /// The fields of this value's wire document, in emission order.
    pub open spec fn wire_fields(self) -> Seq<(Seq<char>, Jv)> {
        opt_entry("platform_fees"@, self.platform_fees) + opt_entry("payee_pricing_tier_id"@, self.payee_pricing_tier_id) + opt_entry("payee_receivable_fx_rate_id"@, self.payee_receivable_fx_rate_id) + opt_entry("disbursement_mode"@, self.disbursement_mode)
    }
}

impl WireCodec for PaymentInstruction {
    open spec fn encoding(self) -> Jv {
        Jv::Object(self.wire_fields())
    }

    open spec fn can_decode(v: Jv) -> bool {
        match v {
            Jv::Object(fs) => {
                &&& opt_ok::<Vec<PlatformFee>>(fs, "platform_fees"@)
                &&& opt_ok::<String>(fs, "payee_pricing_tier_id"@)
                &&& opt_ok::<String>(fs, "payee_receivable_fx_rate_id"@)
                &&& opt_ok::<DisbursementMode>(fs, "disbursement_mode"@)
            },
            _ => false,
        }
    }

    open spec fn decodes_to(v: Jv, t: Self) -> bool {
        match v {
            Jv::Object(fs) => {
                &&& opt_rel::<Vec<PlatformFee>>(fs, "platform_fees"@, t.platform_fees)
                &&& opt_rel::<String>(fs, "payee_pricing_tier_id"@, t.payee_pricing_tier_id)
                &&& opt_rel::<String>(fs, "payee_receivable_fx_rate_id"@, t.payee_receivable_fx_rate_id)
                &&& opt_rel::<DisbursementMode>(fs, "disbursement_mode"@, t.disbursement_mode)
            },
            _ => false,
        }
    }

    fn encode(&self) -> (r: JsonValue) {
        let mut fs: Vec<(String, JsonValue)> = Vec::new();
        if let Some(x) = &self.platform_fees {
            fs.push(("platform_fees".to_owned(), x.encode()));
        }
        if let Some(x) = &self.payee_pricing_tier_id {
            fs.push(("payee_pricing_tier_id".to_owned(), x.encode()));
        }
        if let Some(x) = &self.payee_receivable_fx_rate_id {
            fs.push(("payee_receivable_fx_rate_id".to_owned(), x.encode()));
        }
        if let Some(x) = &self.disbursement_mode {
            fs.push(("disbursement_mode".to_owned(), x.encode()));
        }
        proof {
            crate::json::lemma_jv_of_fields(fs@);
            assert(jv_of_fields(fs@) =~= (*self).wire_fields());
        }
        JsonValue::Object(fs)
    }

    fn decode(v: &JsonValue) -> (r: Result<Self, DecodeError>) {
        match v {
            JsonValue::Object(fields) => {
                let platform_fees = match get_opt::<Vec<PlatformFee>>(fields, "platform_fees") {
                    Ok(x) => x,
                    Err(e) => return Err(e),
                };
                let payee_pricing_tier_id = match get_opt::<String>(fields, "payee_pricing_tier_id") {
                    Ok(x) => x,
                    Err(e) => return Err(e),
                };
                let payee_receivable_fx_rate_id = match get_opt::<String>(fields, "payee_receivable_fx_rate_id") {
                    Ok(x) => x,
                    Err(e) => return Err(e),
                };
                let disbursement_mode = match get_opt::<DisbursementMode>(fields, "disbursement_mode") {
                    Ok(x) => x,
                    Err(e) => return Err(e),
                };
                Ok(PaymentInstruction { platform_fees, payee_pricing_tier_id, payee_receivable_fx_rate_id, disbursement_mode })
            },
            _ => Err(DecodeError::WrongType("object".to_owned())),
        }
    }

    proof fn lemma_round_trip(t: Self, u: Self) {
        reveal_strlit("platform_fees");
        reveal_strlit("payee_pricing_tier_id");
        reveal_strlit("payee_receivable_fx_rate_id");
        reveal_strlit("disbursement_mode");
        assert("platform_fees"@.len() == 13);
        assert("payee_pricing_tier_id"@.len() == 21);
        assert("payee_receivable_fx_rate_id"@.len() == 27);
        assert("disbursement_mode"@.len() == 17);
        if let Some(x) = t.platform_fees {
            <Vec<PlatformFee> as WireCodec>::lemma_round_trip(x, x);
        }
        if let Some(x) = t.disbursement_mode {
            DisbursementMode::lemma_round_trip(x, x);
        }
        if Self::decodes_to(t.encoding(), u) {
            if let (Some(x), Some(y)) = (t.platform_fees, u.platform_fees) {
                <Vec<PlatformFee> as WireCodec>::lemma_round_trip(x, y);
            }
            if let (Some(x), Some(y)) = (t.disbursement_mode, u.disbursement_mode) {
                DisbursementMode::lemma_round_trip(x, y);
            }
            assert(u.wire_fields() =~= t.wire_fields());
        }
    }
}

/// The name of the person to whom to ship the items.
#[derive(Debug, Clone, PartialEq)]
pub struct ShippingDetailName {
    /// The full name of the person; only this single property is supported.
    pub full_name: String,
}

impl ShippingDetailName {
    /// The fields of this value's wire document, in emission order.
    pub open spec fn wire_fields(self) -> Seq<(Seq<char>, Jv)> {
        field_entry("full_name"@, self.full_name.encoding())
    }
}

impl WireCodec for ShippingDetailName {
    open spec fn encoding(self) -> Jv {
        Jv::Object(self.wire_fields())
    }

    open spec fn can_decode(v: Jv) -> bool {
        match v {
            Jv::Object(fs) => {
                &&& req_ok::<String>(fs, "full_name"@)
            },
            _ => false,
        }
    }

    open spec fn decodes_to(v: Jv, t: Self) -> bool {
        match v {
            Jv::Object(fs) => {
                &&& req_rel::<String>(fs, "full_name"@, t.full_name)
            },
            _ => false,
        }
    }

    fn encode(&self) -> (r: JsonValue) {
        let mut fs: Vec<(String, JsonValue)> = Vec::new();
        fs.push(("full_name".to_owned(), self.full_name.encode()));
        proof {
            crate::json::lemma_jv_of_fields(fs@);
            assert(jv_of_fields(fs@) =~= (*self).wire_fields());
        }
        JsonValue::Object(fs)
    }

    fn decode(v: &JsonValue) -> (r: Result<Self, DecodeError>) {
        match v {
            JsonValue::Object(fields) => {
                let full_name = match get_req::<String>(fields, "full_name") {
                    Ok(x) => x,
                    Err(e) => return Err(e),
                };
                Ok(ShippingDetailName { full_name })
            },
            _ => Err(DecodeError::WrongType("object".to_owned())),
        }
    }

    proof fn lemma_round_trip(t: Self, u: Self) {
        reveal_strlit("full_name");
        assert("full_name"@.len() == 9);
        if Self::decodes_to(t.encoding(), u) {
            assert(u.wire_fields() =~= t.wire_fields());
        }
    }
}

/// The method of purchase fulfillment.
#[derive(Debug, Clone, Copy, PartialEq, Eq)]
pub enum ShippingType {
    /// The payer intends to receive the items at a specified address.
    Shipping,
    /// Deprecated; use `PickupFromPerson` instead.
    PickupInPerson,
    /// The payer intends to pick the items up from the payee's physical store.
    PickupInStore,
    /// The payer intends to pick the items up from the payee in person.
    PickupFromPerson,
}

impl ShippingType {
    /// The wire token of this value.
    pub open spec fn spec_token(self) -> Seq<char> {
        match self {
            ShippingType::Shipping => "SHIPPING"@,
            ShippingType::PickupInPerson => "PICKUP_IN_PERSON"@,
            ShippingType::PickupInStore => "PICKUP_IN_STORE"@,
            ShippingType::PickupFromPerson => "PICKUP_FROM_PERSON"@,
        }
    }

    /// Whether `s` is one of the documented tokens.
    pub open spec fn spec_is_token(s: Seq<char>) -> bool {
        ||| s == "SHIPPING"@
        ||| s == "PICKUP_IN_PERSON"@
        ||| s == "PICKUP_IN_STORE"@
        ||| s == "PICKUP_FROM_PERSON"@
    }
}

impl WireCodec for ShippingType {
    open spec fn encoding(self) -> Jv {
        Jv::Str(self.spec_token())
    }

    open spec fn can_decode(v: Jv) -> bool {
        match v {
            Jv::Str(s) => ShippingType::spec_is_token(s),
            _ => false,
        }
    }

    open spec fn decodes_to(v: Jv, t: Self) -> bool {
        v == Jv::Str(t.spec_token())
    }

    fn encode(&self) -> (r: JsonValue) {
        let tok = match self {
            ShippingType::Shipping => "SHIPPING",
            ShippingType::PickupInPerson => "PICKUP_IN_PERSON",
            ShippingType::PickupInStore => "PICKUP_IN_STORE",
            ShippingType::PickupFromPerson => "PICKUP_FROM_PERSON",
        };
        JsonValue::Str(tok.to_owned())
    }

    fn decode(v: &JsonValue) -> (r: Result<Self, DecodeError>)
        ensures
            match r {
                Err(DecodeError::UnknownToken(s)) => v@ == Jv::Str(s@)
                    && !ShippingType::spec_is_token(s@),
                Err(DecodeError::WrongType(_)) => !(v@ is Str),
                Err(DecodeError::MissingField(_)) => false,
                Ok(_) => true,
            },
    {
        match v {
            JsonValue::Str(s) => {
                let c = s.as_str();
                if str_eq(c, "SHIPPING") {
                    Ok(ShippingType::Shipping)
                } else if str_eq(c, "PICKUP_IN_PERSON") {
                    Ok(ShippingType::PickupInPerson)
                } else if str_eq(c, "PICKUP_IN_STORE") {
                    Ok(ShippingType::PickupInStore)
                } else if str_eq(c, "PICKUP_FROM_PERSON") {
                    Ok(ShippingType::PickupFromPerson)
                } else {
                    Err(DecodeError::UnknownToken(s.clone()))
                }
            },
            _ => Err(DecodeError::WrongType("string".to_owned())),
        }
    }

    proof fn lemma_round_trip(t: Self, u: Self) {
    }
}

/// An item in a shipment attached to a transaction tracker.
#[derive(Debug, Clone, PartialEq)]
pub struct ShipmentItem {
    /// The item name or title.
    pub name: Option<String>,
    /// The item quantity. Must be a whole number.
    pub quantity: Option<String>,
    /// The stock keeping unit (SKU) for the item.
    pub sku: Option<String>,
    /// The URL to the item being purchased.
    pub url: Option<String>,
    /// The URL of the item's image.
    pub image_url: Option<String>,
    /// The Universal Product Code of the item.
    pub upc: Option<ItemUpc>,
}

impl ShipmentItem {
    /// The fields of this value's wire document, in emission order.
    pub open spec fn wire_fields(self) -> Seq<(Seq<char>, Jv)> {
        opt_entry("name"@, self.name) + opt_entry("quantity"@, self.quantity) + opt_entry("sku"@, self.sku) + opt_entry("url"@, self.url) + opt_entry("image_url"@, self.image_url) + opt_entry("upc"@, self.upc)
    }
}

impl WireCodec for ShipmentItem {
    open spec fn encoding(self) -> Jv {
        Jv::Object(self.wire_fields())
    }

    open spec fn can_decode(v: Jv) -> bool {
        match v {
            Jv::Object(fs) => {
                &&& opt_ok::<String>(fs, "name"@)
                &&& opt_ok::<String>(fs, "quantity"@)
                &&& opt_ok::<String>(fs, "sku"@)
                &&& opt_ok::<String>(fs, "url"@)
                &&& opt_ok::<String>(fs, "image_url"@)
                &&& opt_ok::<ItemUpc>(fs, "upc"@)
            },
            _ => false,
        }
    }

    open spec fn decodes_to(v: Jv, t: Self) -> bool {
        match v {
            Jv::Object(fs) => {
                &&& opt_rel::<String>(fs, "name"@, t.name)
                &&& opt_rel::<String>(fs, "quantity"@, t.quantity)
                &&& opt_rel::<String>(fs, "sku"@, t.sku)
                &&& opt_rel::<String>(fs, "url"@, t.url)
                &&& opt_rel::<String>(fs, "image_url"@, t.image_url)
                &&& opt_rel::<ItemUpc>(fs, "upc"@, t.upc)
            },
            _ => false,
        }
    }

    fn encode(&self) -> (r: JsonValue) {
        let mut fs: Vec<(String, JsonValue)> = Vec::new();
        if let Some(x) = &self.name {
            fs.push(("name".to_owned(), x.encode()));
        }
        if let Some(x) = &self.quantity {
            fs.push(("quantity".to_owned(), x.encode()));
        }
        if let Some(x) = &self.sku {
            fs.push(("sku".to_owned(), x.encode()));
        }
        if let Some(x) = &self.url {
            fs.push(("url".to_owned(), x.encode()));
        }
        if let Some(x) = &self.image_url {
            fs.push(("image_url".to_owned(), x.encode()));
        }
        if let Some(x) = &self.upc {
            fs.push(("upc".to_owned(), x.encode()));
        }
        proof {
            crate::json::lemma_jv_of_fields(fs@);
            assert(jv_of_fields(fs@) =~= (*self).wire_fields());
        }
        JsonValue::Object(fs)
    }

    fn decode(v: &JsonValue) -> (r: Result<Self, DecodeError>) {
        match v {
            JsonValue::Object(fields) => {
                let name = match get_opt::<String>(fields, "name") {
                    Ok(x) => x,
                    Err(e) => return Err(e),
                };
                let quantity = match get_opt::<String>(fields, "quantity") {
                    Ok(x) => x,
                    Err(e) => return Err(e),
                };
                let sku = match get_opt::<String>(fields, "sku") {
                    Ok(x) => x,
                    Err(e) => return Err(e),
                };
                let url = match get_opt::<String>(fields, "url") {
                    Ok(x) => x,
                    Err(e) => return Err(e),
                };
                let image_url = match get_opt::<String>(fields, "image_url") {
                    Ok(x) => x,
                    Err(e) => return Err(e),
                };
                let upc = match get_opt::<ItemUpc>(fields, "upc") {
                    Ok(x) => x,
                    Err(e) => return Err(e),
                };
                Ok(ShipmentItem { name, quantity, sku, url, image_url, upc })
            },
            _ => Err(DecodeError::WrongType("object".to_owned())),
        }
    }

    proof fn lemma_round_trip(t: Self, u: Self) {
        reveal_strlit("name");
        reveal_strlit("quantity");
        reveal_strlit("sku");
        reveal_strlit("url");
        reveal_strlit("image_url");
        reveal_strlit("upc");
        assert("name"@.len() == 4);
        assert("quantity"@.len() == 8);
        assert("sku"@.len() == 3);
        assert("url"@.len() == 3);
        assert("image_url"@.len() == 9);
        assert("upc"@.len() == 3);
        assert("sku"@[0] == 's');
        assert("url"@[0] == 'u');
        assert("upc"@[0] == 'u');
        assert("url"@[1] == 'r');
        assert("upc"@[1] == 'p');
        if let Some(x) = t.upc {
            ItemUpc::lemma_round_trip(x, x);
        }
        if Self::decodes_to(t.encoding(), u) {
            if let (Some(x), Some(y)) = (t.upc, u.upc) {
                ItemUpc::lemma_round_trip(x, y);
            }
            assert(u.wire_fields() =~= t.wire_fields());
        }
    }
}

/// A tracker for a transaction.
#[derive(Debug, Clone, PartialEq)]
pub struct TransactionTracker {
    /// The tracker ID.
    pub id: Option<String>,
    /// The status of the item shipment.
    pub status: Option<TrackerStatus>,
    /// The details of the items in the shipment.
    pub items: Option<Vec<ShipmentItem>>,
    /// Request-related HATEOAS links.
    pub links: Option<Vec<LinkDescription>>,
    /// When the transaction occurred, as an ISO-8601 timestamp.
    pub create_time: Option<String>,
    /// When the transaction was last updated, as an ISO-8601 timestamp.
    pub update_time: Option<String>,
}

impl TransactionTracker {
    /// The fields of this value's wire document, in emission order.
    pub open spec fn wire_fields(self) -> Seq<(Seq<char>, Jv)> {
        opt_entry("id"@, self.id) + opt_entry("status"@, self.status) + opt_entry("items"@, self.items) + opt_entry("links"@, self.links) + opt_entry("create_time"@, self.create_time) + opt_entry("update_time"@, self.update_time)
    }

    /// Where the `id` field stands in the wire document.
    proof fn lemma_lookup_id(t: Self)
        ensures
            lookup(t.wire_fields(), "id"@) == (match t.id {
                Some(x) => Some(x.encoding()),
                None => None::<Jv>,
            }),
    {
        reveal_strlit("id");
        reveal_strlit("status");
        reveal_strlit("items");
        reveal_strlit("links");
        reveal_strlit("create_time");
        reveal_strlit("update_time");
        assert("id"@.len() == 2);
        assert("status"@.len() == 6);
        assert("items"@.len() == 5);
        assert("links"@.len() == 5);
        assert("create_time"@.len() == 11);
        assert("update_time"@.len() == 11);
        assert("items"@[0] == 'i');
        assert("links"@[0] == 'l');
        assert("create_time"@[0] == 'c');
        assert("update_time"@[0] == 'u');
    }

    /// Where the `status` field stands in the wire document.
    proof fn lemma_lookup_status(t: Self)
        ensures
            lookup(t.wire_fields(), "status"@) == (match t.status {
                Some(x) => Some(x.encoding()),
                None => None::<Jv>,
            }),
    {
        reveal_strlit("id");
        reveal_strlit("status");
        reveal_strlit("items");
        reveal_strlit("links");
        reveal_strlit("create_time");
        reveal_strlit("update_time");
        assert("id"@.len() == 2);
        assert("status"@.len() == 6);
        assert("items"@.len() == 5);
        assert("links"@.len() == 5);
        assert("create_time"@.len() == 11);
        assert("update_time"@.len() == 11);
        assert("items"@[0] == 'i');
        assert("links"@[0] == 'l');
        assert("create_time"@[0] == 'c');
        assert("update_time"@[0] == 'u');
    }

    /// Where the `items` field stands in the wire document.
    proof fn lemma_lookup_items(t: Self)
        ensures
            lookup(t.wire_fields(), "items"@) == (match t.items {
                Some(x) => Some(x.encoding()),
                None => None::<Jv>,
            }),
    {
        reveal_strlit("id");
        reveal_strlit("status");
        reveal_strlit("items");
        reveal_strlit("links");
        reveal_strlit("create_time");
        reveal_strlit("update_time");
        assert("id"@.len() == 2);
        assert("status"@.len() == 6);
        assert("items"@.len() == 5);
        assert("links"@.len() == 5);
        assert("create_time"@.len() == 11);
        assert("update_time"@.len() == 11);
        assert("items"@[0] == 'i');
        assert("links"@[0] == 'l');
        assert("create_time"@[0] == 'c');
        assert("update_time"@[0] == 'u');
    }

    /// Where the `links` field stands in the wire document.
    proof fn lemma_lookup_links(t: Self)
        ensures
            lookup(t.wire_fields(), "links"@) == (match t.links {
                Some(x) => Some(x.encoding()),
                None => None::<Jv>,
            }),
    {
        reveal_strlit("id");
        reveal_strlit("status");
        reveal_strlit("items");
        reveal_strlit("links");
        reveal_strlit("create_time");
        reveal_strlit("update_time");
        assert("id"@.len() == 2);
        assert("status"@.len() == 6);
        assert("items"@.len() == 5);
        assert("links"@.len() == 5);
        assert("create_time"@.len() == 11);
        assert("update_time"@.len() == 11);
        assert("items"@[0] == 'i');
        assert("links"@[0] == 'l');
        assert("create_time"@[0] == 'c');
        assert("update_time"@[0] == 'u');
    }

    /// Where the `create_time` field stands in the wire document.
    proof fn lemma_lookup_create_time(t: Self)
        ensures
            lookup(t.wire_fields(), "create_time"@) == (match t.create_time {
                Some(x) => Some(x.encoding()),
                None => None::<Jv>,
            }),
    {
        reveal_strlit("id");
        reveal_strlit("status");
        reveal_strlit("items");
        reveal_strlit("links");
        reveal_strlit("create_time");
        reveal_strlit("update_time");
        assert("id"@.len() == 2);
        assert("status"@.len() == 6);
        assert("items"@.len() == 5);
        assert("links"@.len() == 5);
        assert("create_time"@.len() == 11);
        assert("update_time"@.len() == 11);
        assert("items"@[0] == 'i');
        assert("links"@[0] == 'l');
        assert("create_time"@[0] == 'c');
        assert("update_time"@[0] == 'u');
    }

    /// Where the `update_time` field stands in the wire document.
    proof fn lemma_lookup_update_time(t: Self)
        ensures
            lookup(t.wire_fields(), "update_time"@) == (match t.update_time {
                Some(x) => Some(x.encoding()),
                None => None::<Jv>,
            }),
    {
        reveal_strlit("id");
        reveal_strlit("status");
        reveal_strlit("items");
        reveal_strlit("links");
        reveal_strlit("create_time");
        reveal_strlit("update_time");
        assert("id"@.len() == 2);
        assert("status"@.len() == 6);
        assert("items"@.len() == 5);
        assert("links"@.len() == 5);
        assert("create_time"@.len() == 11);
        assert("update_time"@.len() == 11);
        assert("items"@[0] == 'i');
        assert("links"@[0] == 'l');
        assert("create_time"@[0] == 'c');
        assert("update_time"@[0] == 'u');
    }

    /// Two values that decode from the same document put the same
    /// document back on the wire.
    #[verifier::rlimit(100)]
    proof fn lemma_encoding_agrees(t: Self, u: Self)
        requires
            <TransactionTracker as WireCodec>::decodes_to(t.encoding(), u),
        ensures
            u.encoding() == t.encoding(),
    {
        Self::lemma_lookup_id(t);
        Self::lemma_lookup_status(t);
        Self::lemma_lookup_items(t);
        Self::lemma_lookup_links(t);
        Self::lemma_lookup_create_time(t);
        Self::lemma_lookup_update_time(t);
        if let (Some(x), Some(y)) = (t.status, u.status) {
            TrackerStatus::lemma_round_trip(x, y);
        }
        if let (Some(x), Some(y)) = (t.items, u.items) {
            <Vec<ShipmentItem> as WireCodec>::lemma_round_trip(x, y);
        }
        if let (Some(x), Some(y)) = (t.links, u.links) {
            <Vec<LinkDescription> as WireCodec>::lemma_round_trip(x, y);
        }
        assert(opt_entry("id"@, u.id) == opt_entry("id"@, t.id));
        assert(opt_entry("status"@, u.status) == opt_entry("status"@, t.status));
        assert(opt_entry("items"@, u.items) == opt_entry("items"@, t.items));
        assert(opt_entry("links"@, u.links) == opt_entry("links"@, t.links));
        assert(opt_entry("create_time"@, u.create_time) == opt_entry("create_time"@, t.create_time));
        assert(opt_entry("update_time"@, u.update_time) == opt_entry("update_time"@, t.update_time));
        assert(u.wire_fields() == t.wire_fields());
    }
}

impl WireCodec for TransactionTracker {
    open spec fn encoding(self) -> Jv {
        Jv::Object(self.wire_fields())
    }

    open spec fn can_decode(v: Jv) -> bool {
        match v {
            Jv::Object(fs) => {
                &&& opt_ok::<String>(fs, "id"@)
                &&& opt_ok::<TrackerStatus>(fs, "status"@)
                &&& opt_ok::<Vec<ShipmentItem>>(fs, "items"@)
                &&& opt_ok::<Vec<LinkDescription>>(fs, "links"@)
                &&& opt_ok::<String>(fs, "create_time"@)
                &&& opt_ok::<String>(fs, "update_time"@)
            },
            _ => false,
        }
    }

    open spec fn decodes_to(v: Jv, t: Self) -> bool {
        match v {
            Jv::Object(fs) => {
                &&& opt_rel::<String>(fs, "id"@, t.id)
                &&& opt_rel::<TrackerStatus>(fs, "status"@, t.status)
                &&& opt_rel::<Vec<ShipmentItem>>(fs, "items"@, t.items)
                &&& opt_rel::<Vec<LinkDescription>>(fs, "links"@, t.links)
                &&& opt_rel::<String>(fs, "create_time"@, t.create_time)
                &&& opt_rel::<String>(fs, "update_time"@, t.update_time)
            },
            _ => false,
        }
    }

    #[verifier::rlimit(100)]
    fn encode(&self) -> (r: JsonValue) {
        let mut fs: Vec<(String, JsonValue)> = Vec::new();
        push_opt(&mut fs, "id", &self.id);
        push_opt(&mut fs, "status", &self.status);
        push_opt(&mut fs, "items", &self.items);
        push_opt(&mut fs, "links", &self.links);
        push_opt(&mut fs, "create_time", &self.create_time);
        push_opt(&mut fs, "update_time", &self.update_time);
        proof {
            crate::json::lemma_concat_left_empty(opt_entry("id"@, (*self).id));
            assert(jv_of_fields(fs@) == (*self).wire_fields());
        }
        JsonValue::Object(fs)
    }

    fn decode(v: &JsonValue) -> (r: Result<Self, DecodeError>) {
        match v {
            JsonValue::Object(fields) => {
                let id = match get_opt::<String>(fields, "id") {
                    Ok(x) => x,
                    Err(e) => return Err(e),
                };
                let status = match get_opt::<TrackerStatus>(fields, "status") {
                    Ok(x) => x,
                    Err(e) => return Err(e),
                };
                let items = match get_opt::<Vec<ShipmentItem>>(fields, "items") {
                    Ok(x) => x,
                    Err(e) => return Err(e),
                };
                let links = match get_opt::<Vec<LinkDescription>>(fields, "links") {
                    Ok(x) => x,
                    Err(e) => return Err(e),
                };
                let create_time = match get_opt::<String>(fields, "create_time") {
                    Ok(x) => x,
                    Err(e) => return Err(e),
                };
                let update_time = match get_opt::<String>(fields, "update_time") {
                    Ok(x) => x,
                    Err(e) => return Err(e),
                };
                Ok(TransactionTracker { id, status, items, links, create_time, update_time })
            },
            _ => Err(DecodeError::WrongType("object".to_owned())),
        }
    }

    #[verifier::rlimit(100)]
    proof fn lemma_round_trip(t: Self, u: Self) {
        Self::lemma_lookup_id(t);
        Self::lemma_lookup_status(t);
        Self::lemma_lookup_items(t);
        Self::lemma_lookup_links(t);
        Self::lemma_lookup_create_time(t);
        Self::lemma_lookup_update_time(t);
        if let Some(x) = t.status {
            TrackerStatus::lemma_round_trip(x, x);
        }
        if let Some(x) = t.items {
            <Vec<ShipmentItem> as WireCodec>::lemma_round_trip(x, x);
        }
        if let Some(x) = t.links {
            <Vec<LinkDescription> as WireCodec>::lemma_round_trip(x, x);
        }
        if Self::decodes_to(t.encoding(), u) {
            Self::lemma_encoding_agrees(t, u);
        }
    }
}

/// A shipping option that the payee or merchant offers to the payer.
#[derive(Debug, Clone, PartialEq)]
pub struct ShippingOption {
    /// A unique ID that identifies a payer-selected shipping option.
    pub id: String,
    /// A description that the payer sees, to help choose the option.
    pub label: String,
    /// Whether this option is selected; only one option can be.
    pub selected: bool,
    /// A classification for the method of purchase fulfillment.
    pub shipping_type: Option<ShippingType>,
    /// The shipping cost for the selected option.
    pub amount: Option<Money>,
}

impl ShippingOption {
    /// The fields of this value's wire document, in emission order.
    pub open spec fn wire_fields(self) -> Seq<(Seq<char>, Jv)> {
        field_entry("id"@, self.id.encoding()) + field_entry("label"@, self.label.encoding()) + field_entry("selected"@, self.selected.encoding()) + opt_entry("shipping_type"@, self.shipping_type) + opt_entry("amount"@, self.amount)
    }
}

impl WireCodec for ShippingOption {
    open spec fn encoding(self) -> Jv {
        Jv::Object(self.wire_fields())
    }

    open spec fn can_decode(v: Jv) -> bool {
        match v {
            Jv::Object(fs) => {
                &&& req_ok::<String>(fs, "id"@)
                &&& req_ok::<String>(fs, "label"@)
                &&& req_ok::<bool>(fs, "selected"@)
                &&& opt_ok::<ShippingType>(fs, "shipping_type"@)
                &&& opt_ok::<Money>(fs, "amount"@)
            },
            _ => false,
        }
    }

    open spec fn decodes_to(v: Jv, t: Self) -> bool {
        match v {
            Jv::Object(fs) => {
                &&& req_rel::<String>(fs, "id"@, t.id)
                &&& req_rel::<String>(fs, "label"@, t.label)
                &&& req_rel::<bool>(fs, "selected"@, t.selected)
                &&& opt_rel::<ShippingType>(fs, "shipping_type"@, t.shipping_type)
                &&& opt_rel::<Money>(fs, "amount"@, t.amount)
            },
            _ => false,
        }
    }

    fn encode(&self) -> (r: JsonValue) {
        let mut fs: Vec<(String, JsonValue)> = Vec::new();
        fs.push(("id".to_owned(), self.id.encode()));
        fs.push(("label".to_owned(), self.label.encode()));
        fs.push(("selected".to_owned(), self.selected.encode()));
        if let Some(x) = &self.shipping_type {
            fs.push(("shipping_type".to_owned(), x.encode()));
        }
        if let Some(x) = &self.amount {
            fs.push(("amount".to_owned(), x.encode()));
        }
        proof {
            crate::json::lemma_jv_of_fields(fs@);
            assert(jv_of_fields(fs@) =~= (*self).wire_fields());
        }
        JsonValue::Object(fs)
    }

    fn decode(v: &JsonValue) -> (r: Result<Self, DecodeError>) {
        match v {
            JsonValue::Object(fields) => {
                let id = match get_req::<String>(fields, "id") {
                    Ok(x) => x,
                    Err(e) => return Err(e),
                };
                let label = match get_req::<String>(fields, "label") {
                    Ok(x) => x,
                    Err(e) => return Err(e),
                };
                let selected = match get_req::<bool>(fields, "selected") {
                    Ok(x) => x,
                    Err(e) => return Err(e),
                };
                let shipping_type = match get_opt::<ShippingType>(fields, "shipping_type") {
                    Ok(x) => x,
                    Err(e) => return Err(e),
                };
                let amount = match get_opt::<Money>(fields, "amount") {
                    Ok(x) => x,
                    Err(e) => return Err(e),
                };
                Ok(ShippingOption { id, label, selected, shipping_type, amount })
            },
            _ => Err(DecodeError::WrongType("object".to_owned())),
        }
    }

    proof fn lemma_round_trip(t: Self, u: Self) {
        reveal_strlit("id");
        reveal_strlit("label");
        reveal_strlit("selected");
        reveal_strlit("shipping_type");
        reveal_strlit("amount");
        assert("id"@.len() == 2);
        assert("label"@.len() == 5);
        assert("selected"@.len() == 8);
        assert("shipping_type"@.len() == 13);
        assert("amount"@.len() == 6);
        if let Some(x) = t.shipping_type {
            ShippingType::lemma_round_trip(x, x);
        }
        if let Some(x) = t.amount {
            Money::lemma_round_trip(x, x);
        }
        if Self::decodes_to(t.encoding(), u) {
            if let (Some(x), Some(y)) = (t.shipping_type, u.shipping_type) {
                ShippingType::lemma_round_trip(x, y);
            }
            if let (Some(x), Some(y)) = (t.amount, u.amount) {
                Money::lemma_round_trip(x, y);
            }
            assert(u.wire_fields() =~= t.wire_fields());
        }
    }
}

/// The name and address of the person to whom to ship the items.
#[derive(Debug, Clone, PartialEq)]
pub struct ShippingDetail {
    /// A classification for the method of purchase fulfillment (its wire name
    /// is `type`).  Either this or `options` may be present, but not both.
    pub shipping_type: Option<ShippingType>,
    /// The shipping options the payee or merchant offers to the payer.
    pub options: Option<Vec<ShippingOption>>,
    /// The name of the person to whom to ship the items.
    pub name: Option<ShippingDetailName>,
    /// The phone number of the recipient of the shipped items.
    pub phone_number: Option<PhoneNumber>,
    /// The address of the person to whom to ship the items.
    pub address: Option<Address>,
    /// The trackers for the transaction.
    pub trackers: Option<Vec<TransactionTracker>>,
}

impl ShippingDetail {
    /// The fields of this value's wire document, in emission order.
    pub open spec fn wire_fields(self) -> Seq<(Seq<char>, Jv)> {
        opt_entry("type"@, self.shipping_type) + opt_entry("options"@, self.options) + opt_entry("name"@, self.name) + opt_entry("phone_number"@, self.phone_number) + opt_entry("address"@, self.address) + opt_entry("trackers"@, self.trackers)
    }

    /// Where the `type` field stands in the wire document.
    proof fn lemma_lookup_shipping_type(t: Self)
        ensures
            lookup(t.wire_fields(), "type"@) == (match t.shipping_type {
                Some(x) => Some(x.encoding()),
                None => None::<Jv>,
            }),
    {
        reveal_strlit("type");
        reveal_strlit("options");
        reveal_strlit("name");
        reveal_strlit("phone_number");
        reveal_strlit("address");
        reveal_strlit("trackers");
        assert("type"@.len() == 4);
        assert("options"@.len() == 7);
        assert("name"@.len() == 4);
        assert("phone_number"@.len() == 12);
        assert("address"@.len() == 7);
        assert("trackers"@.len() == 8);
        assert("type"@[0] == 't');
        assert("name"@[0] == 'n');
        assert("options"@[0] == 'o');
        assert("address"@[0] == 'a');
    }

    /// Where the `options` field stands in the wire document.
    proof fn lemma_lookup_options(t: Self)
        ensures
            lookup(t.wire_fields(), "options"@) == (match t.options {
                Some(x) => Some(x.encoding()),
                None => None::<Jv>,
            }),
    {
        reveal_strlit("type");
        reveal_strlit("options");
        reveal_strlit("name");
        reveal_strlit("phone_number");
        reveal_strlit("address");
        reveal_strlit("trackers");
        assert("type"@.len() == 4);
        assert("options"@.len() == 7);
        assert("name"@.len() == 4);
        assert("phone_number"@.len() == 12);
        assert("address"@.len() == 7);
        assert("trackers"@.len() == 8);
        assert("type"@[0] == 't');
        assert("name"@[0] == 'n');
        assert("options"@[0] == 'o');
        assert("address"@[0] == 'a');
    }

    /// Where the `name` field stands in the wire document.
    proof fn lemma_lookup_name(t: Self)
        ensures
            lookup(t.wire_fields(), "name"@) == (match t.name {
                Some(x) => Some(x.encoding()),
                None => None::<Jv>,
            }),
    {
        reveal_strlit("type");
        reveal_strlit("options");
        reveal_strlit("name");
        reveal_strlit("phone_number");
        reveal_strlit("address");
        reveal_strlit("trackers");
        assert("type"@.len() == 4);
        assert("options"@.len() == 7);
        assert("name"@.len() == 4);
        assert("phone_number"@.len() == 12);
        assert("address"@.len() == 7);
        assert("trackers"@.len() == 8);
        assert("type"@[0] == 't');
        assert("name"@[0] == 'n');
        assert("options"@[0] == 'o');
        assert("address"@[0] == 'a');
    }

    /// Where the `phone_number` field stands in the wire document.
    proof fn lemma_lookup_phone_number(t: Self)
        ensures
            lookup(t.wire_fields(), "phone_number"@) == (match t.phone_number {
                Some(x) => Some(x.encoding()),
                None => None::<Jv>,
            }),
    {
        reveal_strlit("type");
        reveal_strlit("options");
        reveal_strlit("name");
        reveal_strlit("phone_number");
        reveal_strlit("address");
        reveal_strlit("trackers");
        assert("type"@.len() == 4);
        assert("options"@.len() == 7);
        assert("name"@.len() == 4);
        assert("phone_number"@.len() == 12);
        assert("address"@.len() == 7);
        assert("trackers"@.len() == 8);
        assert("type"@[0] == 't');
        assert("name"@[0] == 'n');
        assert("options"@[0] == 'o');
        assert("address"@[0] == 'a');
    }

    /// Where the `address` field stands in the wire document.
    proof fn lemma_lookup_address(t: Self)
        ensures
            lookup(t.wire_fields(), "address"@) == (match t.address {
                Some(x) => Some(x.encoding()),
                None => None::<Jv>,
            }),
    {
        reveal_strlit("type");
        reveal_strlit("options");
        reveal_strlit("name");
        reveal_strlit("phone_number");
        reveal_strlit("address");
        reveal_strlit("trackers");
        assert("type"@.len() == 4);
        assert("options"@.len() == 7);
        assert("name"@.len() == 4);
        assert("phone_number"@.len() == 12);
        assert("address"@.len() == 7);
        assert("trackers"@.len() == 8);
        assert("type"@[0] == 't');
        assert("name"@[0] == 'n');
        assert("options"@[0] == 'o');
        assert("address"@[0] == 'a');
    }

    /// Where the `trackers` field stands in the wire document.
    proof fn lemma_lookup_trackers(t: Self)
        ensures
            lookup(t.wire_fields(), "trackers"@) == (match t.trackers {
                Some(x) => Some(x.encoding()),
                None => None::<Jv>,
            }),
    {
        reveal_strlit("type");
        reveal_strlit("options");
        reveal_strlit("name");
        reveal_strlit("phone_number");
        reveal_strlit("address");
        reveal_strlit("trackers");
        assert("type"@.len() == 4);
        assert("options"@.len() == 7);
        assert("name"@.len() == 4);
        assert("phone_number"@.len() == 12);
        assert("address"@.len() == 7);
        assert("trackers"@.len() == 8);
        assert("type"@[0] == 't');
        assert("name"@[0] == 'n');
        assert("options"@[0] == 'o');
        assert("address"@[0] == 'a');
    }
}

impl WireCodec for ShippingDetail {
    open spec fn encoding(self) -> Jv {
        Jv::Object(self.wire_fields())
    }

    open spec fn can_decode(v: Jv) -> bool {
        match v {
            Jv::Object(fs) => {
                &&& opt_ok::<ShippingType>(fs, "type"@)
                &&& opt_ok::<Vec<ShippingOption>>(fs, "options"@)
                &&& opt_ok::<ShippingDetailName>(fs, "name"@)
                &&& opt_ok::<PhoneNumber>(fs, "phone_number"@)
                &&& opt_ok::<Address>(fs, "address"@)
                &&& opt_ok::<Vec<TransactionTracker>>(fs, "trackers"@)
            },
            _ => false,
        }
    }

    open spec fn decodes_to(v: Jv, t: Self) -> bool {
        match v {
            Jv::Object(fs) => {
                &&& opt_rel::<ShippingType>(fs, "type"@, t.shipping_type)
                &&& opt_rel::<Vec<ShippingOption>>(fs, "options"@, t.options)
                &&& opt_rel::<ShippingDetailName>(fs, "name"@, t.name)
                &&& opt_rel::<PhoneNumber>(fs, "phone_number"@, t.phone_number)
                &&& opt_rel::<Address>(fs, "address"@, t.address)
                &&& opt_rel::<Vec<TransactionTracker>>(fs, "trackers"@, t.trackers)
            },
            _ => false,
        }
    }

    #[verifier::rlimit(100)]
    fn encode(&self) -> (r: JsonValue) {
        let mut fs: Vec<(String, JsonValue)> = Vec::new();
        if let Some(x) = &self.shipping_type {
            fs.push(("type".to_owned(), x.encode()));
        }
        if let Some(x) = &self.options {
            fs.push(("options".to_owned(), x.encode()));
        }
        if let Some(x) = &self.name {
            fs.push(("name".to_owned(), x.encode()));
        }
        if let Some(x) = &self.phone_number {
            fs.push(("phone_number".to_owned(), x.encode()));
        }
        if let Some(x) = &self.address {
            fs.push(("address".to_owned(), x.encode()));
        }
        if let Some(x) = &self.trackers {
            fs.push(("trackers".to_owned(), x.encode()));
        }
        proof {
            crate::json::lemma_jv_of_fields(fs@);
            assert(jv_of_fields(fs@) =~= (*self).wire_fields());
        }
        JsonValue::Object(fs)
    }

    fn decode(v: &JsonValue) -> (r: Result<Self, DecodeError>) {
        match v {
            JsonValue::Object(fields) => {
                let shipping_type = match get_opt::<ShippingType>(fields, "type") {
                    Ok(x) => x,
                    Err(e) => return Err(e),
                };
                let options = match get_opt::<Vec<ShippingOption>>(fields, "options") {
                    Ok(x) => x,
                    Err(e) => return Err(e),
                };
                let name = match get_opt::<ShippingDetailName>(fields, "name") {
                    Ok(x) => x,
                    Err(e) => return Err(e),
                };
                let phone_number = match get_opt::<PhoneNumber>(fields, "phone_number") {
                    Ok(x) => x,
                    Err(e) => return Err(e),
                };
                let address = match get_opt::<Address>(fields, "address") {
                    Ok(x) => x,
                    Err(e) => return Err(e),
                };
                let trackers = match get_opt::<Vec<TransactionTracker>>(fields, "trackers") {
                    Ok(x) => x,
                    Err(e) => return Err(e),
                };
                Ok(ShippingDetail { shipping_type, options, name, phone_number, address, trackers })
            },
            _ => Err(DecodeError::WrongType("object".to_owned())),
        }
    }

    #[verifier::rlimit(100)]
    proof fn lemma_round_trip(t: Self, u: Self) {
        Self::lemma_lookup_shipping_type(t);
        Self::lemma_lookup_options(t);
        Self::lemma_lookup_name(t);
        Self::lemma_lookup_phone_number(t);
        Self::lemma_lookup_address(t);
        Self::lemma_lookup_trackers(t);
        if let Some(x) = t.shipping_type {
            ShippingType::lemma_round_trip(x, x);
        }
        if let Some(x) = t.options {
            <Vec<ShippingOption> as WireCodec>::lemma_round_trip(x, x);
        }
        if let Some(x) = t.name {
            ShippingDetailName::lemma_round_trip(x, x);
        }
        if let Some(x) = t.phone_number {
            PhoneNumber::lemma_round_trip(x, x);
        }
        if let Some(x) = t.address {
            Address::lemma_round_trip(x, x);
        }
        if let Some(x) = t.trackers {
            <Vec<TransactionTracker> as WireCodec>::lemma_round_trip(x, x);
        }
        if Self::decodes_to(t.encoding(), u) {
            if let (Some(x), Some(y)) = (t.shipping_type, u.shipping_type) {
                ShippingType::lemma_round_trip(x, y);
            }
            if let (Some(x), Some(y)) = (t.options, u.options) {
                <Vec<ShippingOption> as WireCodec>::lemma_round_trip(x, y);
            }
            if let (Some(x), Some(y)) = (t.name, u.name) {
                ShippingDetailName::lemma_round_trip(x, y);
            }
            if let (Some(x), Some(y)) = (t.phone_number, u.phone_number) {
                PhoneNumber::lemma_round_trip(x, y);
            }
            if let (Some(x), Some(y)) = (t.address, u.address) {
                Address::lemma_round_trip(x, y);
            }
            if let (Some(x), Some(y)) = (t.trackers, u.trackers) {
                <Vec<TransactionTracker> as WireCodec>::lemma_round_trip(x, y);
            }
            assert(opt_entry("type"@, u.shipping_type) == opt_entry("type"@, t.shipping_type));
            assert(opt_entry("options"@, u.options) == opt_entry("options"@, t.options));
            assert(opt_entry("name"@, u.name) == opt_entry("name"@, t.name));
            assert(opt_entry("phone_number"@, u.phone_number) == opt_entry("phone_number"@, t.phone_number));
            assert(opt_entry("address"@, u.address) == opt_entry("address"@, t.address));
            assert(opt_entry("trackers"@, u.trackers) == opt_entry("trackers"@, t.trackers));
            assert(u.wire_fields() == t.wire_fields());
        }
    }
}

/// The status of a payment authorization.
#[derive(Debug, Clone, Copy, PartialEq, Eq)]
pub enum AuthorizationStatus {
    /// The authorized payment is created; no captures have been made.
    Created,
    /// The authorized payment has one or more captures against it whose sum
    /// exceeds the original authorized amount.
    Captured,
    /// PayPal cannot authorize funds for this payment.
    Denied,
    /// The authorized payment has expired.
    Expired,
    /// A captured payment was made for less than the authorized amount.
    PartiallyExpired,
    /// The payment was authorized for less than the requested amount.
    PartiallyCaptured,
    /// The authorized payment was voided.
    Voided,
    /// The created authorization is pending; see its status details.
    Pending,
}

impl AuthorizationStatus {
    /// The wire token of this value.
    pub open spec fn spec_token(self) -> Seq<char> {
        match self {
            AuthorizationStatus::Created => "CREATED"@,
            AuthorizationStatus::Captured => "CAPTURED"@,
            AuthorizationStatus::Denied => "DENIED"@,
            AuthorizationStatus::Expired => "EXPIRED"@,
            AuthorizationStatus::PartiallyExpired => "PARTIALLY_EXPIRED"@,
            AuthorizationStatus::PartiallyCaptured => "PARTIALLY_CAPTURED"@,
            AuthorizationStatus::Voided => "VOIDED"@,
            AuthorizationStatus::Pending => "PENDING"@,
        }
    }

    /// Whether `s` is one of the documented tokens.
    pub open spec fn spec_is_token(s: Seq<char>) -> bool {
        ||| s == "CREATED"@
        ||| s == "CAPTURED"@
        ||| s == "DENIED"@
        ||| s == "EXPIRED"@
        ||| s == "PARTIALLY_EXPIRED"@
        ||| s == "PARTIALLY_CAPTURED"@
        ||| s == "VOIDED"@
        ||| s == "PENDING"@
    }
}

impl WireCodec for AuthorizationStatus {
    open spec fn encoding(self) -> Jv {
        Jv::Str(self.spec_token())
    }

    open spec fn can_decode(v: Jv) -> bool {
        match v {
            Jv::Str(s) => AuthorizationStatus::spec_is_token(s),
            _ => false,
        }
    }

    open spec fn decodes_to(v: Jv, t: Self) -> bool {
        v == Jv::Str(t.spec_token())
    }

    fn encode(&self) -> (r: JsonValue) {
        let tok = match self {
            AuthorizationStatus::Created => "CREATED",
            AuthorizationStatus::Captured => "CAPTURED",
            AuthorizationStatus::Denied => "DENIED",
            AuthorizationStatus::Expired => "EXPIRED",
            AuthorizationStatus::PartiallyExpired => "PARTIALLY_EXPIRED",
            AuthorizationStatus::PartiallyCaptured => "PARTIALLY_CAPTURED",
            AuthorizationStatus::Voided => "VOIDED",
            AuthorizationStatus::Pending => "PENDING",
        };
        JsonValue::Str(tok.to_owned())
    }

    fn decode(v: &JsonValue) -> (r: Result<Self, DecodeError>)
        ensures
            match r {
                Err(DecodeError::UnknownToken(s)) => v@ == Jv::Str(s@)
                    && !AuthorizationStatus::spec_is_token(s@),
                Err(DecodeError::WrongType(_)) => !(v@ is Str),
                Err(DecodeError::MissingField(_)) => false,
                Ok(_) => true,
            },
    {
        match v {
            JsonValue::Str(s) => {
                let c = s.as_str();
                if str_eq(c, "CREATED") {
                    Ok(AuthorizationStatus::Created)
                } else if str_eq(c, "CAPTURED") {
                    Ok(AuthorizationStatus::Captured)
                } else if str_eq(c, "DENIED") {
                    Ok(AuthorizationStatus::Denied)
                } else if str_eq(c, "EXPIRED") {
                    Ok(AuthorizationStatus::Expired)
                } else if str_eq(c, "PARTIALLY_EXPIRED") {
                    Ok(AuthorizationStatus::PartiallyExpired)
                } else if str_eq(c, "PARTIALLY_CAPTURED") {
                    Ok(AuthorizationStatus::PartiallyCaptured)
                } else if str_eq(c, "VOIDED") {
                    Ok(AuthorizationStatus::Voided)
                } else if str_eq(c, "PENDING") {
                    Ok(AuthorizationStatus::Pending)
                } else {
                    Err(DecodeError::UnknownToken(s.clone()))
                }
            },
            _ => Err(DecodeError::WrongType("string".to_owned())),
        }
    }

    proof fn lemma_round_trip(t: Self, u: Self) {
    }
}

/// The details of an authorized order's pending status.
#[derive(Debug, Clone, PartialEq)]
pub struct AuthorizationStatusDetails {
    /// The reason why the authorized status is pending.
    pub reason: Option<String>,
}

impl AuthorizationStatusDetails {
    /// The fields of this value's wire document, in emission order.
    pub open spec fn wire_fields(self) -> Seq<(Seq<char>, Jv)> {
        opt_entry("reason"@, self.reason)
    }
}

impl WireCodec for AuthorizationStatusDetails {
    open spec fn encoding(self) -> Jv {
        Jv::Object(self.wire_fields())
    }

    open spec fn can_decode(v: Jv) -> bool {
        match v {
            Jv::Object(fs) => {
                &&& opt_ok::<String>(fs, "reason"@)
            },
            _ => false,
        }
    }

    open spec fn decodes_to(v: Jv, t: Self) -> bool {
        match v {
            Jv::Object(fs) => {
                &&& opt_rel::<String>(fs, "reason"@, t.reason)
            },
            _ => false,
        }
    }

    fn encode(&self) -> (r: JsonValue) {
        let mut fs: Vec<(String, JsonValue)> = Vec::new();
        push_opt(&mut fs, "reason", &self.reason);
        proof {
            crate::json::lemma_concat_left_empty(opt_entry("reason"@, (*self).reason));
            assert(jv_of_fields(fs@) == (*self).wire_fields());
        }
        JsonValue::Object(fs)
    }

    fn decode(v: &JsonValue) -> (r: Result<Self, DecodeError>) {
        match v {
            JsonValue::Object(fields) => {
                let reason = match get_opt::<String>(fields, "reason") {
                    Ok(x) => x,
                    Err(e) => return Err(e),
                };
                Ok(AuthorizationStatusDetails { reason })
            },
            _ => Err(DecodeError::WrongType("object".to_owned())),
        }
    }

    proof fn lemma_round_trip(t: Self, u: Self) {
        reveal_strlit("reason");
        assert("reason"@.len() == 6);
        if Self::decodes_to(t.encoding(), u) {
            assert(u.wire_fields() =~= t.wire_fields());
        }
    }
}

/// The seller protection status.
#[derive(Debug, Clone, Copy, PartialEq, Eq)]
pub enum SellerProtectionStatus {
    /// The balance remains intact for item-not-received and unauthorized
    /// payment claims.
    Eligible,
    /// The balance remains intact for item-not-received claims.
    PartiallyEligible,
    /// The transaction is not eligible for seller protection.
    NotEligible,
}

/// The level of seller protection for a transaction.
#[derive(Debug, Clone, PartialEq)]
pub struct SellerProtection {
    /// Whether the transaction is eligible for seller protection.
    pub status: Option<SellerProtectionStatus>,
    /// The conditions that are covered for the transaction.
    pub dispute_categories: Option<Vec<String>>,
}

impl SellerProtection {
    /// The fields of this value's wire document, in emission order.
    pub open spec fn wire_fields(self) -> Seq<(Seq<char>, Jv)> {
        opt_entry("status"@, self.status) + opt_entry("dispute_categories"@, self.dispute_categories)
    }
}

impl WireCodec for SellerProtection {
    open spec fn encoding(self) -> Jv {
        Jv::Object(self.wire_fields())
    }

    open spec fn can_decode(v: Jv) -> bool {
        match v {
            Jv::Object(fs) => {
                &&& opt_ok::<SellerProtectionStatus>(fs, "status"@)
                &&& opt_ok::<Vec<String>>(fs, "dispute_categories"@)
            },
            _ => false,
        }
    }

    open spec fn decodes_to(v: Jv, t: Self) -> bool {
        match v {
            Jv::Object(fs) => {
                &&& opt_rel::<SellerProtectionStatus>(fs, "status"@, t.status)
                &&& opt_rel::<Vec<String>>(fs, "dispute_categories"@, t.dispute_categories)
            },
            _ => false,
        }
    }

    fn encode(&self) -> (r: JsonValue) {
        let mut fs: Vec<(String, JsonValue)> = Vec::new();
        if let Some(x) = &self.status {
            fs.push(("status".to_owned(), x.encode()));
        }
        if let Some(x) = &self.dispute_categories {
            fs.push(("dispute_categories".to_owned(), x.encode()));
        }
        proof {
            crate::json::lemma_jv_of_fields(fs@);
            assert(jv_of_fields(fs@) =~= (*self).wire_fields());
        }
        JsonValue::Object(fs)
    }

    fn decode(v: &JsonValue) -> (r: Result<Self, DecodeError>) {
        match v {
            JsonValue::Object(fields) => {
                let status = match get_opt::<SellerProtectionStatus>(fields, "status") {
                    Ok(x) => x,
                    Err(e) => return Err(e),
                };
                let dispute_categories = match get_opt::<Vec<String>>(fields, "dispute_categories") {
                    Ok(x) => x,
                    Err(e) => return Err(e),
                };
                Ok(SellerProtection { status, dispute_categories })
            },
            _ => Err(DecodeError::WrongType("object".to_owned())),
        }
    }

    proof fn lemma_round_trip(t: Self, u: Self) {
        reveal_strlit("status");
        reveal_strlit("dispute_categories");
        assert("status"@.len() == 6);
        assert("dispute_categories"@.len() == 18);
        if let Some(x) = t.status {
            SellerProtectionStatus::lemma_round_trip(x, x);
        }
        if let Some(x) = t.dispute_categories {
            <Vec<String> as WireCodec>::lemma_round_trip(x, x);
        }
        if Self::decodes_to(t.encoding(), u) {
            if let (Some(x), Some(y)) = (t.status, u.status) {
                SellerProtectionStatus::lemma_round_trip(x, y);
            }
            if let (Some(x), Some(y)) = (t.dispute_categories, u.dispute_categories) {
                <Vec<String> as WireCodec>::lemma_round_trip(x, y);
            }
            assert(u.wire_fields() =~= t.wire_fields());
        }
    }
}

/// Reference values used by the card network to identify a transaction.
#[derive(Debug, Clone, PartialEq)]
pub struct NetworkTransactionReference {
    /// The transaction reference ID returned by the scheme.
    pub id: String,
    /// The date the transaction was authorized by the scheme.
    pub date: Option<String>,
    /// The reference ID issued for the card transaction.
    pub acquirer_reference_number: Option<String>,
    /// The name of the card network through which the transaction was routed.
    pub network: Option<String>,
}

impl SellerProtectionStatus {
    /// The wire token of this value.
    pub open spec fn spec_token(self) -> Seq<char> {
        match self {
            SellerProtectionStatus::Eligible => "ELIGIBLE"@,
            SellerProtectionStatus::PartiallyEligible => "PARTIALLY_ELIGIBLE"@,
            SellerProtectionStatus::NotEligible => "NOT_ELIGIBLE"@,
        }
    }

    /// Whether `s` is one of the documented tokens.
    pub open spec fn spec_is_token(s: Seq<char>) -> bool {
        s == "ELIGIBLE"@ || s == "PARTIALLY_ELIGIBLE"@ || s == "NOT_ELIGIBLE"@
    }
}

impl WireCodec for SellerProtectionStatus {
    open spec fn encoding(self) -> Jv {
        Jv::Str(self.spec_token())
    }

    open spec fn can_decode(v: Jv) -> bool {
        match v {
            Jv::Str(s) => SellerProtectionStatus::spec_is_token(s),
            _ => false,
        }
    }

    open spec fn decodes_to(v: Jv, t: Self) -> bool {
        v == Jv::Str(t.spec_token())
    }

    fn encode(&self) -> (r: JsonValue) {
        let tok = match self {
            SellerProtectionStatus::Eligible => "ELIGIBLE",
            SellerProtectionStatus::PartiallyEligible => "PARTIALLY_ELIGIBLE",
            SellerProtectionStatus::NotEligible => "NOT_ELIGIBLE",
        };
        JsonValue::Str(tok.to_owned())
    }

    fn decode(v: &JsonValue) -> (r: Result<Self, DecodeError>)
        ensures
            match r {
                Err(DecodeError::UnknownToken(s)) => v@ == Jv::Str(s@)
                    && !SellerProtectionStatus::spec_is_token(s@),
                Err(DecodeError::WrongType(_)) => !(v@ is Str),
                Err(DecodeError::MissingField(_)) => false,
                Ok(_) => true,
            },
    {
        match v {
            JsonValue::Str(s) => {
                let c = s.as_str();
                if str_eq(c, "ELIGIBLE") {
                    Ok(SellerProtectionStatus::Eligible)
                } else if str_eq(c, "PARTIALLY_ELIGIBLE") {
                    Ok(SellerProtectionStatus::PartiallyEligible)
                } else if str_eq(c, "NOT_ELIGIBLE") {
                    Ok(SellerProtectionStatus::NotEligible)
                } else {
                    Err(DecodeError::UnknownToken(s.clone()))
                }
            },
            _ => Err(DecodeError::WrongType("string".to_owned())),
        }
    }

    proof fn lemma_round_trip(t: Self, u: Self) {
    }
}

impl NetworkTransactionReference {
    /// The fields of this value's wire document, in emission order.
    pub open spec fn wire_fields(self) -> Seq<(Seq<char>, Jv)> {
        field_entry("id"@, self.id.encoding()) + opt_entry("date"@, self.date) + opt_entry("acquirer_reference_number"@, self.acquirer_reference_number) + opt_entry("network"@, self.network)
    }
}

impl WireCodec for NetworkTransactionReference {
    open spec fn encoding(self) -> Jv {
        Jv::Object(self.wire_fields())
    }

    open spec fn can_decode(v: Jv) -> bool {
        match v {
            Jv::Object(fs) => {
                &&& req_ok::<String>(fs, "id"@)
                &&& opt_ok::<String>(fs, "date"@)
                &&& opt_ok::<String>(fs, "acquirer_reference_number"@)
                &&& opt_ok::<String>(fs, "network"@)
            },
            _ => false,
        }
    }

    open spec fn decodes_to(v: Jv, t: Self) -> bool {
        match v {
            Jv::Object(fs) => {
                &&& req_rel::<String>(fs, "id"@, t.id)
                &&& opt_rel::<String>(fs, "date"@, t.date)
                &&& opt_rel::<String>(fs, "acquirer_reference_number"@, t.acquirer_reference_number)
                &&& opt_rel::<String>(fs, "network"@, t.network)
            },
            _ => false,
        }
    }

    fn encode(&self) -> (r: JsonValue) {
        let mut fs: Vec<(String, JsonValue)> = Vec::new();
        fs.push(("id".to_owned(), self.id.encode()));
        if let Some(x) = &self.date {
            fs.push(("date".to_owned(), x.encode()));
        }
        if let Some(x) = &self.acquirer_reference_number {
            fs.push(("acquirer_reference_number".to_owned(), x.encode()));
        }
        if let Some(x) = &self.network {
            fs.push(("network".to_owned(), x.encode()));
        }
        proof {
            crate::json::lemma_jv_of_fields(fs@);
            assert(jv_of_fields(fs@) =~= (*self).wire_fields());
        }
        JsonValue::Object(fs)
    }

    fn decode(v: &JsonValue) -> (r: Result<Self, DecodeError>) {
        match v {
            JsonValue::Object(fields) => {
                let id = match get_req::<String>(fields, "id") {
                    Ok(x) => x,
                    Err(e) => return Err(e),
                };
                let date = match get_opt::<String>(fields, "date") {
                    Ok(x) => x,
                    Err(e) => return Err(e),
                };
                let acquirer_reference_number = match get_opt::<String>(fields, "acquirer_reference_number") {
                    Ok(x) => x,
                    Err(e) => return Err(e),
                };
                let network = match get_opt::<String>(fields, "network") {
                    Ok(x) => x,
                    Err(e) => return Err(e),
                };
                Ok(NetworkTransactionReference { id, date, acquirer_reference_number, network })
            },
            _ => Err(DecodeError::WrongType("object".to_owned())),
        }
    }

    proof fn lemma_round_trip(t: Self, u: Self) {
        reveal_strlit("id");
        reveal_strlit("date");
        reveal_strlit("acquirer_reference_number");
        reveal_strlit("network");
        assert("id"@.len() == 2);
        assert("date"@.len() == 4);
        assert("acquirer_reference_number"@.len() == 25);
        assert("network"@.len() == 7);
        if Self::decodes_to(t.encoding(), u) {
            assert(u.wire_fields() =~= t.wire_fields());
        }
    }
}

/// A payment authorization with its status, amount and audit data.
#[derive(Debug, PartialEq)]
pub struct AuthorizationWithData {
    /// The status of the authorized payment.
    pub status: AuthorizationStatus,
    /// The details of the authorized order's pending status.
    pub status_details: AuthorizationStatusDetails,
    /// The PayPal-generated ID for the authorized payment.
    pub id: Option<String>,
    /// The API caller-provided external invoice number for this order.
    pub invoice_id: Option<String>,
    /// The API caller-provided external ID.
    pub custom_id: Option<String>,
    /// Related HATEOAS links.
    pub links: Option<Vec<LinkDescription>>,
    /// The amount for this authorized payment.
    pub amount: Option<Money>,
    /// The level of seller protection for the transaction.
    pub seller_protection: Option<SellerProtection>,
    /// When the authorized payment expires, as an ISO-8601 timestamp.
    pub expiration_time: Option<String>,
    /// When the transaction occurred, as an ISO-8601 timestamp.
    pub create_time: Option<String>,
    /// When the transaction was last updated, as an ISO-8601 timestamp.
    pub update_time: Option<String>,
    /// The processor response for payment requests, carried as an opaque
    /// JSON document.
    pub processor_response: Option<JsonValue>,
}

impl AuthorizationWithData {
    /// The fields of this value's wire document, in emission order.
    pub open spec fn wire_fields(self) -> Seq<(Seq<char>, Jv)> {
        field_entry("status"@, self.status.encoding()) + field_entry("status_details"@, self.status_details.encoding()) + opt_entry("id"@, self.id) + opt_entry("invoice_id"@, self.invoice_id) + opt_entry("custom_id"@, self.custom_id) + opt_entry("links"@, self.links) + opt_entry("amount"@, self.amount) + opt_entry("seller_protection"@, self.seller_protection) + opt_entry("expiration_time"@, self.expiration_time) + opt_entry("create_time"@, self.create_time) + opt_entry("update_time"@, self.update_time) + opt_entry("processor_response"@, self.processor_response)
    }

    /// Where the `status` field stands in the wire document.
    proof fn lemma_lookup_status(t: Self)
        ensures
            lookup(t.wire_fields(), "status"@) == Some(t.status.encoding()),
    {
        reveal_strlit("status");
        reveal_strlit("status_details");
        reveal_strlit("id");
        reveal_strlit("invoice_id");
        reveal_strlit("custom_id");
        reveal_strlit("links");
        reveal_strlit("amount");
        reveal_strlit("seller_protection");
        reveal_strlit("expiration_time");
        reveal_strlit("create_time");
        reveal_strlit("update_time");
        reveal_strlit("processor_response");
        assert("status"@.len() == 6);
        assert("status_details"@.len() == 14);
        assert("id"@.len() == 2);
        assert("invoice_id"@.len() == 10);
        assert("custom_id"@.len() == 9);
        assert("links"@.len() == 5);
        assert("amount"@.len() == 6);
        assert("seller_protection"@.len() == 17);
        assert("expiration_time"@.len() == 15);
        assert("create_time"@.len() == 11);
        assert("update_time"@.len() == 11);
        assert("processor_response"@.len() == 18);
        assert("status"@[0] == 's');
        assert("amount"@[0] == 'a');
        assert("create_time"@[0] == 'c');
        assert("update_time"@[0] == 'u');
    }

    /// Where the `status_details` field stands in the wire document.
    proof fn lemma_lookup_status_details(t: Self)
        ensures
            lookup(t.wire_fields(), "status_details"@) == Some(t.status_details.encoding()),
    {
        reveal_strlit("status");
        reveal_strlit("status_details");
        reveal_strlit("id");
        reveal_strlit("invoice_id");
        reveal_strlit("custom_id");
        reveal_strlit("links");
        reveal_strlit("amount");
        reveal_strlit("seller_protection");
        reveal_strlit("expiration_time");
        reveal_strlit("create_time");
        reveal_strlit("update_time");
        reveal_strlit("processor_response");
        assert("status"@.len() == 6);
        assert("status_details"@.len() == 14);
        assert("id"@.len() == 2);
        assert("invoice_id"@.len() == 10);
        assert("custom_id"@.len() == 9);
        assert("links"@.len() == 5);
        assert("amount"@.len() == 6);
        assert("seller_protection"@.len() == 17);
        assert("expiration_time"@.len() == 15);
        assert("create_time"@.len() == 11);
        assert("update_time"@.len() == 11);
        assert("processor_response"@.len() == 18);
        assert("status"@[0] == 's');
        assert("amount"@[0] == 'a');
        assert("create_time"@[0] == 'c');
        assert("update_time"@[0] == 'u');
    }

    /// Where the `id` field stands in the wire document.
    proof fn lemma_lookup_id(t: Self)
        ensures
            lookup(t.wire_fields(), "id"@) == (match t.id {
                Some(x) => Some(x.encoding()),
                None => None::<Jv>,
            }),
    {
        reveal_strlit("status");
        reveal_strlit("status_details");
        reveal_strlit("id");
        reveal_strlit("invoice_id");
        reveal_strlit("custom_id");
        reveal_strlit("links");
        reveal_strlit("amount");
        reveal_strlit("seller_protection");
        reveal_strlit("expiration_time");
        reveal_strlit("create_time");
        reveal_strlit("update_time");
        reveal_strlit("processor_response");
        assert("status"@.len() == 6);
        assert("status_details"@.len() == 14);
        assert("id"@.len() == 2);
        assert("invoice_id"@.len() == 10);
        assert("custom_id"@.len() == 9);
        assert("links"@.len() == 5);
        assert("amount"@.len() == 6);
        assert("seller_protection"@.len() == 17);
        assert("expiration_time"@.len() == 15);
        assert("create_time"@.len() == 11);
        assert("update_time"@.len() == 11);
        assert("processor_response"@.len() == 18);
        assert("status"@[0] == 's');
        assert("amount"@[0] == 'a');
        assert("create_time"@[0] == 'c');
        assert("update_time"@[0] == 'u');
    }

    /// Where the `invoice_id` field stands in the wire document.
    proof fn lemma_lookup_invoice_id(t: Self)
        ensures
            lookup(t.wire_fields(), "invoice_id"@) == (match t.invoice_id {
                Some(x) => Some(x.encoding()),
                None => None::<Jv>,
            }),
    {
        reveal_strlit("status");
        reveal_strlit("status_details");
        reveal_strlit("id");
        reveal_strlit("invoice_id");
        reveal_strlit("custom_id");
        reveal_strlit("links");
        reveal_strlit("amount");
        reveal_strlit("seller_protection");
        reveal_strlit("expiration_time");
        reveal_strlit("create_time");
        reveal_strlit("update_time");
        reveal_strlit("processor_response");
        assert("status"@.len() == 6);
        assert("status_details"@.len() == 14);
        assert("id"@.len() == 2);
        assert("invoice_id"@.len() == 10);
        assert("custom_id"@.len() == 9);
        assert("links"@.len() == 5);
        assert("amount"@.len() == 6);
        assert("seller_protection"@.len() == 17);
        assert("expiration_time"@.len() == 15);
        assert("create_time"@.len() == 11);
        assert("update_time"@.len() == 11);
        assert("processor_response"@.len() == 18);
        assert("status"@[0] == 's');
        assert("amount"@[0] == 'a');
        assert("create_time"@[0] == 'c');
        assert("update_time"@[0] == 'u');
    }

    /// Where the `custom_id` field stands in the wire document.
    proof fn lemma_lookup_custom_id(t: Self)
        ensures
            lookup(t.wire_fields(), "custom_id"@) == (match t.custom_id {
                Some(x) => Some(x.encoding()),
                None => None::<Jv>,
            }),
    {
        reveal_strlit("status");
        reveal_strlit("status_details");
        reveal_strlit("id");
        reveal_strlit("invoice_id");
        reveal_strlit("custom_id");
        reveal_strlit("links");
        reveal_strlit("amount");
        reveal_strlit("seller_protection");
        reveal_strlit("expiration_time");
        reveal_strlit("create_time");
        reveal_strlit("update_time");
        reveal_strlit("processor_response");
        assert("status"@.len() == 6);
        assert("status_details"@.len() == 14);
        assert("id"@.len() == 2);
        assert("invoice_id"@.len() == 10);
        assert("custom_id"@.len() == 9);
        assert("links"@.len() == 5);
        assert("amount"@.len() == 6);
        assert("seller_protection"@.len() == 17);
        assert("expiration_time"@.len() == 15);
        assert("create_time"@.len() == 11);
        assert("update_time"@.len() == 11);
        assert("processor_response"@.len() == 18);
        assert("status"@[0] == 's');
        assert("amount"@[0] == 'a');
        assert("create_time"@[0] == 'c');
        assert("update_time"@[0] == 'u');
    }

    /// Where the `links` field stands in the wire document.
    proof fn lemma_lookup_links(t: Self)
        ensures
            lookup(t.wire_fields(), "links"@) == (match t.links {
                Some(x) => Some(x.encoding()),
                None => None::<Jv>,
            }),
    {
        reveal_strlit("status");
        reveal_strlit("status_details");
        reveal_strlit("id");
        reveal_strlit("invoice_id");
        reveal_strlit("custom_id");
        reveal_strlit("links");
        reveal_strlit("amount");
        reveal_strlit("seller_protection");
        reveal_strlit("expiration_time");
        reveal_strlit("create_time");
        reveal_strlit("update_time");
        reveal_strlit("processor_response");
        assert("status"@.len() == 6);
        assert("status_details"@.len() == 14);
        assert("id"@.len() == 2);
        assert("invoice_id"@.len() == 10);
        assert("custom_id"@.len() == 9);
        assert("links"@.len() == 5);
        assert("amount"@.len() == 6);
        assert("seller_protection"@.len() == 17);
        assert("expiration_time"@.len() == 15);
        assert("create_time"@.len() == 11);
        assert("update_time"@.len() == 11);
        assert("processor_response"@.len() == 18);
        assert("status"@[0] == 's');
        assert("amount"@[0] == 'a');
        assert("create_time"@[0] == 'c');
        assert("update_time"@[0] == 'u');
    }

    /// Where the `amount` field stands in the wire document.
    proof fn lemma_lookup_amount(t: Self)
        ensures
            lookup(t.wire_fields(), "amount"@) == (match t.amount {
                Some(x) => Some(x.encoding()),
                None => None::<Jv>,
            }),
    {
        reveal_strlit("status");
        reveal_strlit("status_details");
        reveal_strlit("id");
        reveal_strlit("invoice_id");
        reveal_strlit("custom_id");
        reveal_strlit("links");
        reveal_strlit("amount");
        reveal_strlit("seller_protection");
        reveal_strlit("expiration_time");
        reveal_strlit("create_time");
        reveal_strlit("update_time");
        reveal_strlit("processor_response");
        assert("status"@.len() == 6);
        assert("status_details"@.len() == 14);
        assert("id"@.len() == 2);
        assert("invoice_id"@.len() == 10);
        assert("custom_id"@.len() == 9);
        assert("links"@.len() == 5);
        assert("amount"@.len() == 6);
        assert("seller_protection"@.len() == 17);
        assert("expiration_time"@.len() == 15);
        assert("create_time"@.len() == 11);
        assert("update_time"@.len() == 11);
        assert("processor_response"@.len() == 18);
        assert("status"@[0] == 's');
        assert("amount"@[0] == 'a');
        assert("create_time"@[0] == 'c');
        assert("update_time"@[0] == 'u');
    }

    /// Where the `seller_protection` field stands in the wire document.
    proof fn lemma_lookup_seller_protection(t: Self)
        ensures
            lookup(t.wire_fields(), "seller_protection"@) == (match t.seller_protection {
                Some(x) => Some(x.encoding()),
                None => None::<Jv>,
            }),
    {
        reveal_strlit("status");
        reveal_strlit("status_details");
        reveal_strlit("id");
        reveal_strlit("invoice_id");
        reveal_strlit("custom_id");
        reveal_strlit("links");
        reveal_strlit("amount");
        reveal_strlit("seller_protection");
        reveal_strlit("expiration_time");
        reveal_strlit("create_time");
        reveal_strlit("update_time");
        reveal_strlit("processor_response");
        assert("status"@.len() == 6);
        assert("status_details"@.len() == 14);
        assert("id"@.len() == 2);
        assert("invoice_id"@.len() == 10);
        assert("custom_id"@.len() == 9);
        assert("links"@.len() == 5);
        assert("amount"@.len() == 6);
        assert("seller_protection"@.len() == 17);
        assert("expiration_time"@.len() == 15);
        assert("create_time"@.len() == 11);
        assert("update_time"@.len() == 11);
        assert("processor_response"@.len() == 18);
        assert("status"@[0] == 's');
        assert("amount"@[0] == 'a');
        assert("create_time"@[0] == 'c');
        assert("update_time"@[0] == 'u');
    }

    /// Where the `expiration_time` field stands in the wire document.
    proof fn lemma_lookup_expiration_time(t: Self)
        ensures
            lookup(t.wire_fields(), "expiration_time"@) == (match t.expiration_time {
                Some(x) => Some(x.encoding()),
                None => None::<Jv>,
            }),
    {
        reveal_strlit("status");
        reveal_strlit("status_details");
        reveal_strlit("id");
        reveal_strlit("invoice_id");
        reveal_strlit("custom_id");
        reveal_strlit("links");
        reveal_strlit("amount");
        reveal_strlit("seller_protection");
        reveal_strlit("expiration_time");
        reveal_strlit("create_time");
        reveal_strlit("update_time");
        reveal_strlit("processor_response");
        assert("status"@.len() == 6);
        assert("status_details"@.len() == 14);
        assert("id"@.len() == 2);
        assert("invoice_id"@.len() == 10);
        assert("custom_id"@.len() == 9);
        assert("links"@.len() == 5);
        assert("amount"@.len() == 6);
        assert("seller_protection"@.len() == 17);
        assert("expiration_time"@.len() == 15);
        assert("create_time"@.len() == 11);
        assert("update_time"@.len() == 11);
        assert("processor_response"@.len() == 18);
        assert("status"@[0] == 's');
        assert("amount"@[0] == 'a');
        assert("create_time"@[0] == 'c');
        assert("update_time"@[0] == 'u');
    }

    /// Where the `create_time` field stands in the wire document.
    proof fn lemma_lookup_create_time(t: Self)
        ensures
            lookup(t.wire_fields(), "create_time"@) == (match t.create_time {
                Some(x) => Some(x.encoding()),
                None => None::<Jv>,
            }),
    {
        reveal_strlit("status");
        reveal_strlit("status_details");
        reveal_strlit("id");
        reveal_strlit("invoice_id");
        reveal_strlit("custom_id");
        reveal_strlit("links");
        reveal_strlit("amount");
        reveal_strlit("seller_protection");
        reveal_strlit("expiration_time");
        reveal_strlit("create_time");
        reveal_strlit("update_time");
        reveal_strlit("processor_response");
        assert("status"@.len() == 6);
        assert("status_details"@.len() == 14);
        assert("id"@.len() == 2);
        assert("invoice_id"@.len() == 10);
        assert("custom_id"@.len() == 9);
        assert("links"@.len() == 5);
        assert("amount"@.len() == 6);
        assert("seller_protection"@.len() == 17);
        assert("expiration_time"@.len() == 15);
        assert("create_time"@.len() == 11);
        assert("update_time"@.len() == 11);
        assert("processor_response"@.len() == 18);
        assert("status"@[0] == 's');
        assert("amount"@[0] == 'a');
        assert("create_time"@[0] == 'c');
        assert("update_time"@[0] == 'u');
    }

    /// Where the `update_time` field stands in the wire document.
    proof fn lemma_lookup_update_time(t: Self)
        ensures
            lookup(t.wire_fields(), "update_time"@) == (match t.update_time {
                Some(x) => Some(x.encoding()),
                None => None::<Jv>,
            }),
    {
        reveal_strlit("status");
        reveal_strlit("status_details");
        reveal_strlit("id");
        reveal_strlit("invoice_id");
        reveal_strlit("custom_id");
        reveal_strlit("links");
        reveal_strlit("amount");
        reveal_strlit("seller_protection");
        reveal_strlit("expiration_time");
        reveal_strlit("create_time");
        reveal_strlit("update_time");
        reveal_strlit("processor_response");
        assert("status"@.len() == 6);
        assert("status_details"@.len() == 14);
        assert("id"@.len() == 2);
        assert("invoice_id"@.len() == 10);
        assert("custom_id"@.len() == 9);
        assert("links"@.len() == 5);
        assert("amount"@.len() == 6);
        assert("seller_protection"@.len() == 17);
        assert("expiration_time"@.len() == 15);
        assert("create_time"@.len() == 11);
        assert("update_time"@.len() == 11);
        assert("processor_response"@.len() == 18);
        assert("status"@[0] == 's');
        assert("amount"@[0] == 'a');
        assert("create_time"@[0] == 'c');
        assert("update_time"@[0] == 'u');
    }

    /// Where the `processor_response` field stands in the wire document.
    proof fn lemma_lookup_processor_response(t: Self)
        ensures
            lookup(t.wire_fields(), "processor_response"@) == (match t.processor_response {
                Some(x) => Some(x.encoding()),
                None => None::<Jv>,
            }),
    {
        reveal_strlit("status");
        reveal_strlit("status_details");
        reveal_strlit("id");
        reveal_strlit("invoice_id");
        reveal_strlit("custom_id");
        reveal_strlit("links");
        reveal_strlit("amount");
        reveal_strlit("seller_protection");
        reveal_strlit("expiration_time");
        reveal_strlit("create_time");
        reveal_strlit("update_time");
        reveal_strlit("processor_response");
        assert("status"@.len() == 6);
        assert("status_details"@.len() == 14);
        assert("id"@.len() == 2);
        assert("invoice_id"@.len() == 10);
        assert("custom_id"@.len() == 9);
        assert("links"@.len() == 5);
        assert("amount"@.len() == 6);
        assert("seller_protection"@.len() == 17);
        assert("expiration_time"@.len() == 15);
        assert("create_time"@.len() == 11);
        assert("update_time"@.len() == 11);
        assert("processor_response"@.len() == 18);
        assert("status"@[0] == 's');
        assert("amount"@[0] == 'a');
        assert("create_time"@[0] == 'c');
        assert("update_time"@[0] == 'u');
    }
}

impl WireCodec for AuthorizationWithData {
    open spec fn encoding(self) -> Jv {
        Jv::Object(self.wire_fields())
    }

    open spec fn can_decode(v: Jv) -> bool {
        match v {
            Jv::Object(fs) => {
                &&& req_ok::<AuthorizationStatus>(fs, "status"@)
                &&& req_ok::<AuthorizationStatusDetails>(fs, "status_details"@)
                &&& opt_ok::<String>(fs, "id"@)
                &&& opt_ok::<String>(fs, "invoice_id"@)
                &&& opt_ok::<String>(fs, "custom_id"@)
                &&& opt_ok::<Vec<LinkDescription>>(fs, "links"@)
                &&& opt_ok::<Money>(fs, "amount"@)
                &&& opt_ok::<SellerProtection>(fs, "seller_protection"@)
                &&& opt_ok::<String>(fs, "expiration_time"@)
                &&& opt_ok::<String>(fs, "create_time"@)
                &&& opt_ok::<String>(fs, "update_time"@)
                &&& opt_ok::<JsonValue>(fs, "processor_response"@)
            },
            _ => false,
        }
    }

    open spec fn decodes_to(v: Jv, t: Self) -> bool {
        match v {
            Jv::Object(fs) => {
                &&& req_rel::<AuthorizationStatus>(fs, "status"@, t.status)
                &&& req_rel::<AuthorizationStatusDetails>(fs, "status_details"@, t.status_details)
                &&& opt_rel::<String>(fs, "id"@, t.id)
                &&& opt_rel::<String>(fs, "invoice_id"@, t.invoice_id)
                &&& opt_rel::<String>(fs, "custom_id"@, t.custom_id)
                &&& opt_rel::<Vec<LinkDescription>>(fs, "links"@, t.links)
                &&& opt_rel::<Money>(fs, "amount"@, t.amount)
                &&& opt_rel::<SellerProtection>(fs, "seller_protection"@, t.seller_protection)
                &&& opt_rel::<String>(fs, "expiration_time"@, t.expiration_time)
                &&& opt_rel::<String>(fs, "create_time"@, t.create_time)
                &&& opt_rel::<String>(fs, "update_time"@, t.update_time)
                &&& opt_rel::<JsonValue>(fs, "processor_response"@, t.processor_response)
            },
            _ => false,
        }
    }

    #[verifier::rlimit(100)]
    fn encode(&self) -> (r: JsonValue) {
        let mut fs: Vec<(String, JsonValue)> = Vec::new();
        push_req(&mut fs, "status", &self.status);
        push_req(&mut fs, "status_details", &self.status_details);
        push_opt(&mut fs, "id", &self.id);
        push_opt(&mut fs, "invoice_id", &self.invoice_id);
        push_opt(&mut fs, "custom_id", &self.custom_id);
        push_opt(&mut fs, "links", &self.links);
        push_opt(&mut fs, "amount", &self.amount);
        push_opt(&mut fs, "seller_protection", &self.seller_protection);
        push_opt(&mut fs, "expiration_time", &self.expiration_time);
        push_opt(&mut fs, "create_time", &self.create_time);
        push_opt(&mut fs, "update_time", &self.update_time);
        push_opt(&mut fs, "processor_response", &self.processor_response);
        proof {
            crate::json::lemma_concat_left_empty(field_entry("status"@, (*self).status.encoding()));
            assert(jv_of_fields(fs@) == (*self).wire_fields());
        }
        JsonValue::Object(fs)
    }

    fn decode(v: &JsonValue) -> (r: Result<Self, DecodeError>) {
        match v {
            JsonValue::Object(fields) => {
                let status = match get_req::<AuthorizationStatus>(fields, "status") {
                    Ok(x) => x,
                    Err(e) => return Err(e),
                };
                let status_details = match get_req::<AuthorizationStatusDetails>(fields, "status_details") {
                    Ok(x) => x,
                    Err(e) => return Err(e),
                };
                let id = match get_opt::<String>(fields, "id") {
                    Ok(x) => x,
                    Err(e) => return Err(e),
                };
                let invoice_id = match get_opt::<String>(fields, "invoice_id") {
                    Ok(x) => x,
                    Err(e) => return Err(e),
                };
                let custom_id = match get_opt::<String>(fields, "custom_id") {
                    Ok(x) => x,
                    Err(e) => return Err(e),
                };
                let links = match get_opt::<Vec<LinkDescription>>(fields, "links") {
                    Ok(x) => x,
                    Err(e) => return Err(e),
                };
                let amount = match get_opt::<Money>(fields, "amount") {
                    Ok(x) => x,
                    Err(e) => return Err(e),
                };
                let seller_protection = match get_opt::<SellerProtection>(fields, "seller_protection") {
                    Ok(x) => x,
                    Err(e) => return Err(e),
                };
                let expiration_time = match get_opt::<String>(fields, "expiration_time") {
                    Ok(x) => x,
                    Err(e) => return Err(e),
                };
                let create_time = match get_opt::<String>(fields, "create_time") {
                    Ok(x) => x,
                    Err(e) => return Err(e),
                };
                let update_time = match get_opt::<String>(fields, "update_time") {
                    Ok(x) => x,
                    Err(e) => return Err(e),
                };
                let processor_response = match get_opt::<JsonValue>(fields, "processor_response") {
                    Ok(x) => x,
                    Err(e) => return Err(e),
                };
                Ok(AuthorizationWithData { status, status_details, id, invoice_id, custom_id, links, amount, seller_protection, expiration_time, create_time, update_time, processor_response })
            },
            _ => Err(DecodeError::WrongType("object".to_owned())),
        }
    }

    #[verifier::rlimit(100)]
    proof fn lemma_round_trip(t: Self, u: Self) {
        Self::lemma_lookup_status(t);
        Self::lemma_lookup_status_details(t);
        Self::lemma_lookup_id(t);
        Self::lemma_lookup_invoice_id(t);
        Self::lemma_lookup_custom_id(t);
        Self::lemma_lookup_links(t);
        Self::lemma_lookup_amount(t);
        Self::lemma_lookup_seller_protection(t);
        Self::lemma_lookup_expiration_time(t);
        Self::lemma_lookup_create_time(t);
        Self::lemma_lookup_update_time(t);
        Self::lemma_lookup_processor_response(t);
        AuthorizationStatus::lemma_round_trip(t.status, u.status);
        AuthorizationStatusDetails::lemma_round_trip(t.status_details, u.status_details);
        if let Some(x) = t.links {
            <Vec<LinkDescription> as WireCodec>::lemma_round_trip(x, x);
        }
        if let Some(x) = t.amount {
            Money::lemma_round_trip(x, x);
        }
        if let Some(x) = t.seller_protection {
            SellerProtection::lemma_round_trip(x, x);
        }
        if let Some(x) = t.processor_response {
            JsonValue::lemma_round_trip(x, x);
        }
        if Self::decodes_to(t.encoding(), u) {
            if let (Some(x), Some(y)) = (t.links, u.links) {
                <Vec<LinkDescription> as WireCodec>::lemma_round_trip(x, y);
            }
            if let (Some(x), Some(y)) = (t.amount, u.amount) {
                Money::lemma_round_trip(x, y);
            }
            if let (Some(x), Some(y)) = (t.seller_protection, u.seller_protection) {
                SellerProtection::lemma_round_trip(x, y);
            }
            if let (Some(x), Some(y)) = (t.processor_response, u.processor_response) {
                JsonValue::lemma_round_trip(x, y);
            }
            assert(field_entry("status"@, u.status.encoding()) == field_entry("status"@, t.status.encoding()));
            assert(field_entry("status_details"@, u.status_details.encoding()) == field_entry("status_details"@, t.status_details.encoding()));
            assert(opt_entry("id"@, u.id) == opt_entry("id"@, t.id));
            assert(opt_entry("invoice_id"@, u.invoice_id) == opt_entry("invoice_id"@, t.invoice_id));
            assert(opt_entry("custom_id"@, u.custom_id) == opt_entry("custom_id"@, t.custom_id));
            assert(opt_entry("links"@, u.links) == opt_entry("links"@, t.links));
            assert(opt_entry("amount"@, u.amount) == opt_entry("amount"@, t.amount));
            assert(opt_entry("seller_protection"@, u.seller_protection) == opt_entry("seller_protection"@, t.seller_protection));
            assert(opt_entry("expiration_time"@, u.expiration_time) == opt_entry("expiration_time"@, t.expiration_time));
            assert(opt_entry("create_time"@, u.create_time) == opt_entry("create_time"@, t.create_time));
            assert(opt_entry("update_time"@, u.update_time) == opt_entry("update_time"@, t.update_time));
            assert(opt_entry("processor_response"@, u.processor_response) == opt_entry("processor_response"@, t.processor_response));
            assert(u.wire_fields() == t.wire_fields());
        }
    }
}

/// The status of a captured payment.
#[derive(Debug, Clone, Copy, PartialEq, Eq)]
pub enum CaptureStatus {
    /// The funds were credited to the payee's PayPal account.
    Completed,
    /// The funds could not be captured.
    Declined,
    /// Less than this captured payment's amount was refunded to the payer.
    PartiallyRefunded,
    /// The funds were not yet credited to the payee's PayPal account.
    Pending,
    /// At least this captured payment's amount was refunded to the payer.
    Refunded,
}

impl CaptureStatus {
    /// The wire token of this value.
    pub open spec fn spec_token(self) -> Seq<char> {
        match self {
            CaptureStatus::Completed => "COMPLETED"@,
            CaptureStatus::Declined => "DECLINED"@,
            CaptureStatus::PartiallyRefunded => "PARTIALLY_REFUNDED"@,
            CaptureStatus::Pending => "PENDING"@,
            CaptureStatus::Refunded => "REFUNDED"@,
        }
    }

    /// Whether `s` is one of the documented tokens.
    pub open spec fn spec_is_token(s: Seq<char>) -> bool {
        ||| s == "COMPLETED"@
        ||| s == "DECLINED"@
        ||| s == "PARTIALLY_REFUNDED"@
        ||| s == "PENDING"@
        ||| s == "REFUNDED"@
    }
}

impl WireCodec for CaptureStatus {
    open spec fn encoding(self) -> Jv {
        Jv::Str(self.spec_token())
    }

    open spec fn can_decode(v: Jv) -> bool {
        match v {
            Jv::Str(s) => CaptureStatus::spec_is_token(s),
            _ => false,
        }
    }

    open spec fn decodes_to(v: Jv, t: Self) -> bool {
        v == Jv::Str(t.spec_token())
    }

    fn encode(&self) -> (r: JsonValue) {
        let tok = match self {
            CaptureStatus::Completed => "COMPLETED",
            CaptureStatus::Declined => "DECLINED",
            CaptureStatus::PartiallyRefunded => "PARTIALLY_REFUNDED",
            CaptureStatus::Pending => "PENDING",
            CaptureStatus::Refunded => "REFUNDED",
        };
        JsonValue::Str(tok.to_owned())
    }

    fn decode(v: &JsonValue) -> (r: Result<Self, DecodeError>)
        ensures
            match r {
                Err(DecodeError::UnknownToken(s)) => v@ == Jv::Str(s@)
                    && !CaptureStatus::spec_is_token(s@),
                Err(DecodeError::WrongType(_)) => !(v@ is Str),
                Err(DecodeError::MissingField(_)) => false,
                Ok(_) => true,
            },
    {
        match v {
            JsonValue::Str(s) => {
                let c = s.as_str();
                if str_eq(c, "COMPLETED") {
                    Ok(CaptureStatus::Completed)
                } else if str_eq(c, "DECLINED") {
                    Ok(CaptureStatus::Declined)
                } else if str_eq(c, "PARTIALLY_REFUNDED") {
                    Ok(CaptureStatus::PartiallyRefunded)
                } else if str_eq(c, "PENDING") {
                    Ok(CaptureStatus::Pending)
                } else if str_eq(c, "REFUNDED") {
                    Ok(CaptureStatus::Refunded)
                } else {
                    Err(DecodeError::UnknownToken(s.clone()))
                }
            },
            _ => Err(DecodeError::WrongType("string".to_owned())),
        }
    }

    proof fn lemma_round_trip(t: Self, u: Self) {
    }
}

/// The reason a captured payment is pending or denied.
#[derive(Debug, Clone, Copy, PartialEq, Eq)]
pub enum CaptureStatusDetailsReason {
    /// The payer initiated a dispute for this captured payment with PayPal.
    BuyerComplaint,
    /// The captured funds were reversed after the payer disputed the payment
    /// with the issuer of their funding instrument.
    Chargeback,
    /// The payer paid by an eCheck that has not yet cleared.
    Echeck,
    /// The payee must accept or deny this payment in their online account.
    InternationalWithdrawal,
    /// No more specific reason can be given.
    Other,
    /// The captured payment is pending manual review.
    PendingReview,
    /// The payee has not yet set up appropriate receiving preferences.
    ReceivingPreferenceMandatesManualAction,
    /// The captured funds were refunded.
    Refunded,
    /// The payer must send the funds for this captured payment.
    TransactionApprovedAwaitingFunding,
    /// The payee does not have a PayPal account.
    Unilateral,
    /// The payee's PayPal account is not verified.
    VerificationRequired,
}

/// The details of a captured payment's status.
#[derive(Debug, Clone, Copy, PartialEq, Eq)]
pub struct CaptureStatusDetails {
    /// The reason the captured payment status is pending or denied.
    pub reason: CaptureStatusDetailsReason,
}

impl CaptureStatusDetailsReason {
    /// The wire token of this value.
    pub open spec fn spec_token(self) -> Seq<char> {
        match self {
            CaptureStatusDetailsReason::BuyerComplaint => "BUYER_COMPLAINT"@,
            CaptureStatusDetailsReason::Chargeback => "CHARGEBACK"@,
            CaptureStatusDetailsReason::Echeck => "ECHECK"@,
            CaptureStatusDetailsReason::InternationalWithdrawal => "INTERNATIONAL_WITHDRAWAL"@,
            CaptureStatusDetailsReason::Other => "OTHER"@,
            CaptureStatusDetailsReason::PendingReview => "PENDING_REVIEW"@,
            CaptureStatusDetailsReason::ReceivingPreferenceMandatesManualAction => "RECEIVING_PREFERENCE_MANDATES_MANUAL_ACTION"@,
            CaptureStatusDetailsReason::Refunded => "REFUNDED"@,
            CaptureStatusDetailsReason::TransactionApprovedAwaitingFunding => "TRANSACTION_APPROVED_AWAITING_FUNDING"@,
            CaptureStatusDetailsReason::Unilateral => "UNILATERAL"@,
            CaptureStatusDetailsReason::VerificationRequired => "VERIFICATION_REQUIRED"@,
        }
    }

    /// Whether `s` is one of the documented tokens.
    pub open spec fn spec_is_token(s: Seq<char>) -> bool {
        ||| s == "BUYER_COMPLAINT"@
        ||| s == "CHARGEBACK"@
        ||| s == "ECHECK"@
        ||| s == "INTERNATIONAL_WITHDRAWAL"@
        ||| s == "OTHER"@
        ||| s == "PENDING_REVIEW"@
        ||| s == "RECEIVING_PREFERENCE_MANDATES_MANUAL_ACTION"@
        ||| s == "REFUNDED"@
        ||| s == "TRANSACTION_APPROVED_AWAITING_FUNDING"@
        ||| s == "UNILATERAL"@
        ||| s == "VERIFICATION_REQUIRED"@
    }
}

impl WireCodec for CaptureStatusDetailsReason {
    open spec fn encoding(self) -> Jv {
        Jv::Str(self.spec_token())
    }

    open spec fn can_decode(v: Jv) -> bool {
        match v {
            Jv::Str(s) => CaptureStatusDetailsReason::spec_is_token(s),
            _ => false,
        }
    }

    open spec fn decodes_to(v: Jv, t: Self) -> bool {
        v == Jv::Str(t.spec_token())
    }

    fn encode(&self) -> (r: JsonValue) {
        let tok = match self {
            CaptureStatusDetailsReason::BuyerComplaint => "BUYER_COMPLAINT",
            CaptureStatusDetailsReason::Chargeback => "CHARGEBACK",
            CaptureStatusDetailsReason::Echeck => "ECHECK",
            CaptureStatusDetailsReason::InternationalWithdrawal => "INTERNATIONAL_WITHDRAWAL",
            CaptureStatusDetailsReason::Other => "OTHER",
            CaptureStatusDetailsReason::PendingReview => "PENDING_REVIEW",
            CaptureStatusDetailsReason::ReceivingPreferenceMandatesManualAction => "RECEIVING_PREFERENCE_MANDATES_MANUAL_ACTION",
            CaptureStatusDetailsReason::Refunded => "REFUNDED",
            CaptureStatusDetailsReason::TransactionApprovedAwaitingFunding => "TRANSACTION_APPROVED_AWAITING_FUNDING",
            CaptureStatusDetailsReason::Unilateral => "UNILATERAL",
            CaptureStatusDetailsReason::VerificationRequired => "VERIFICATION_REQUIRED",
        };
        JsonValue::Str(tok.to_owned())
    }

    fn decode(v: &JsonValue) -> (r: Result<Self, DecodeError>)
        ensures
            match r {
                Err(DecodeError::UnknownToken(s)) => v@ == Jv::Str(s@)
                    && !CaptureStatusDetailsReason::spec_is_token(s@),
                Err(DecodeError::WrongType(_)) => !(v@ is Str),
                Err(DecodeError::MissingField(_)) => false,
                Ok(_) => true,
            },
    {
        match v {
            JsonValue::Str(s) => {
                let c = s.as_str();
                if str_eq(c, "BUYER_COMPLAINT") {
                    Ok(CaptureStatusDetailsReason::BuyerComplaint)
                } else if str_eq(c, "CHARGEBACK") {
                    Ok(CaptureStatusDetailsReason::Chargeback)
                } else if str_eq(c, "ECHECK") {
                    Ok(CaptureStatusDetailsReason::Echeck)
                } else if str_eq(c, "INTERNATIONAL_WITHDRAWAL") {
                    Ok(CaptureStatusDetailsReason::InternationalWithdrawal)
                } else if str_eq(c, "OTHER") {
                    Ok(CaptureStatusDetailsReason::Other)
                } else if str_eq(c, "PENDING_REVIEW") {
                    Ok(CaptureStatusDetailsReason::PendingReview)
                } else if str_eq(c, "RECEIVING_PREFERENCE_MANDATES_MANUAL_ACTION") {
                    Ok(CaptureStatusDetailsReason::ReceivingPreferenceMandatesManualAction)
                } else if str_eq(c, "REFUNDED") {
                    Ok(CaptureStatusDetailsReason::Refunded)
                } else if str_eq(c, "TRANSACTION_APPROVED_AWAITING_FUNDING") {
                    Ok(CaptureStatusDetailsReason::TransactionApprovedAwaitingFunding)
                } else if str_eq(c, "UNILATERAL") {
                    Ok(CaptureStatusDetailsReason::Unilateral)
                } else if str_eq(c, "VERIFICATION_REQUIRED") {
                    Ok(CaptureStatusDetailsReason::VerificationRequired)
                } else {
                    Err(DecodeError::UnknownToken(s.clone()))
                }
            },
            _ => Err(DecodeError::WrongType("string".to_owned())),
        }
    }

    proof fn lemma_round_trip(t: Self, u: Self) {
    }
}

impl CaptureStatusDetails {
    /// The fields of this value's wire document, in emission order.
    pub open spec fn wire_fields(self) -> Seq<(Seq<char>, Jv)> {
        field_entry("reason"@, self.reason.encoding())
    }
}

impl WireCodec for CaptureStatusDetails {
    open spec fn encoding(self) -> Jv {
        Jv::Object(self.wire_fields())
    }

    open spec fn can_decode(v: Jv) -> bool {
        match v {
            Jv::Object(fs) => {
                &&& req_ok::<CaptureStatusDetailsReason>(fs, "reason"@)
            },
            _ => false,
        }
    }

    open spec fn decodes_to(v: Jv, t: Self) -> bool {
        match v {
            Jv::Object(fs) => {
                &&& req_rel::<CaptureStatusDetailsReason>(fs, "reason"@, t.reason)
            },
            _ => false,
        }
    }

    fn encode(&self) -> (r: JsonValue) {
        let mut fs: Vec<(String, JsonValue)> = Vec::new();
        fs.push(("reason".to_owned(), self.reason.encode()));
        proof {
            crate::json::lemma_jv_of_fields(fs@);
            assert(jv_of_fields(fs@) =~= (*self).wire_fields());
        }
        JsonValue::Object(fs)
    }

    fn decode(v: &JsonValue) -> (r: Result<Self, DecodeError>) {
        match v {
            JsonValue::Object(fields) => {
                let reason = match get_req::<CaptureStatusDetailsReason>(fields, "reason") {
                    Ok(x) => x,
                    Err(e) => return Err(e),
                };
                Ok(CaptureStatusDetails { reason })
            },
            _ => Err(DecodeError::WrongType("object".to_owned())),
        }
    }

    proof fn lemma_round_trip(t: Self, u: Self) {
        reveal_strlit("reason");
        assert("reason"@.len() == 6);
        CaptureStatusDetailsReason::lemma_round_trip(t.reason, u.reason);
        if Self::decodes_to(t.encoding(), u) {
            assert(u.wire_fields() =~= t.wire_fields());
        }
    }
}

/// An exchange rate between two currencies.
#[derive(Debug, Clone, PartialEq)]
pub struct ExchangeRateDetail {
    /// The target currency amount equivalent to one unit of the source
    /// currency, as decimal text.
    pub value: String,
    /// The source currency from which to convert an amount.
    pub source_currency: Option<String>,
    /// The target currency to which to convert an amount.
    pub target_currency: Option<String>,
}

impl ExchangeRateDetail {
    /// The fields of this value's wire document, in emission order.
    pub open spec fn wire_fields(self) -> Seq<(Seq<char>, Jv)> {
        field_entry("value"@, self.value.encoding()) + opt_entry("source_currency"@, self.source_currency) + opt_entry("target_currency"@, self.target_currency)
    }
}

impl WireCodec for ExchangeRateDetail {
    open spec fn encoding(self) -> Jv {
        Jv::Object(self.wire_fields())
    }

    open spec fn can_decode(v: Jv) -> bool {
        match v {
            Jv::Object(fs) => {
                &&& req_ok::<String>(fs, "value"@)
                &&& opt_ok::<String>(fs, "source_currency"@)
                &&& opt_ok::<String>(fs, "target_currency"@)
            },
            _ => false,
        }
    }

    open spec fn decodes_to(v: Jv, t: Self) -> bool {
        match v {
            Jv::Object(fs) => {
                &&& req_rel::<String>(fs, "value"@, t.value)
                &&& opt_rel::<String>(fs, "source_currency"@, t.source_currency)
                &&& opt_rel::<String>(fs, "target_currency"@, t.target_currency)
            },
            _ => false,
        }
    }

    fn encode(&self) -> (r: JsonValue) {
        let mut fs: Vec<(String, JsonValue)> = Vec::new();
        fs.push(("value".to_owned(), self.value.encode()));
        if let Some(x) = &self.source_currency {
            fs.push(("source_currency".to_owned(), x.encode()));
        }
        if let Some(x) = &self.target_currency {
            fs.push(("target_currency".to_owned(), x.encode()));
        }
        proof {
            crate::json::lemma_jv_of_fields(fs@);
            assert(jv_of_fields(fs@) =~= (*self).wire_fields());
        }
        JsonValue::Object(fs)
    }

    fn decode(v: &JsonValue) -> (r: Result<Self, DecodeError>) {
        match v {
            JsonValue::Object(fields) => {
                let value = match get_req::<String>(fields, "value") {
                    Ok(x) => x,
                    Err(e) => return Err(e),
                };
                let source_currency = match get_opt::<String>(fields, "source_currency") {
                    Ok(x) => x,
                    Err(e) => return Err(e),
                };
                let target_currency = match get_opt::<String>(fields, "target_currency") {
                    Ok(x) => x,
                    Err(e) => return Err(e),
                };
                Ok(ExchangeRateDetail { value, source_currency, target_currency })
            },
            _ => Err(DecodeError::WrongType("object".to_owned())),
        }
    }

    proof fn lemma_round_trip(t: Self, u: Self) {
        reveal_strlit("value");
        reveal_strlit("source_currency");
        reveal_strlit("target_currency");
        assert("value"@.len() == 5);
        assert("source_currency"@.len() == 15);
        assert("target_currency"@.len() == 15);
        assert("source_currency"@[0] == 's');
        assert("target_currency"@[0] == 't');
        if Self::decodes_to(t.encoding(), u) {
            assert(u.wire_fields() =~= t.wire_fields());
        }
    }
}

/// The detailed breakdown of what the seller receives for a capture.
#[derive(Debug, Clone, PartialEq)]
pub struct SellerReceivableBreakdown {
    /// Platform or partner fees associated with the captured payment.
    pub platform_fees: Option<Vec<PlatformFee>>,
    /// The amount of the captured payment, in the transaction currency.
    pub gross_amount: Money,
    /// The PayPal fee for the captured payment, in the transaction currency.
    pub paypal_fee: Money,
    /// The PayPal fee in the receivable currency, when it differs.
    pub paypal_fee_in_receivable_currency: Option<Money>,
    /// The net amount the payee receives: gross minus fees.
    pub net_amount: Option<Money>,
    /// The net amount credited in the payee's holding currency, when it
    /// differs from the transaction currency.
    pub receivable_amount: Option<Money>,
    /// The exchange rate applied to compute the receivable amount.
    pub exchange_rate: Option<ExchangeRateDetail>,
}

impl SellerReceivableBreakdown {
    /// The fields of this value's wire document, in emission order.
    pub open spec fn wire_fields(self) -> Seq<(Seq<char>, Jv)> {
        opt_entry("platform_fees"@, self.platform_fees) + field_entry("gross_amount"@, self.gross_amount.encoding()) + field_entry("paypal_fee"@, self.paypal_fee.encoding()) + opt_entry("paypal_fee_in_receivable_currency"@, self.paypal_fee_in_receivable_currency) + opt_entry("net_amount"@, self.net_amount) + opt_entry("receivable_amount"@, self.receivable_amount) + opt_entry("exchange_rate"@, self.exchange_rate)
    }

    /// Where the `platform_fees` field stands in the wire document.
    proof fn lemma_lookup_platform_fees(t: Self)
        ensures
            lookup(t.wire_fields(), "platform_fees"@) == (match t.platform_fees {
                Some(x) => Some(x.encoding()),
                None => None::<Jv>,
            }),
    {
        reveal_strlit("platform_fees");
        reveal_strlit("gross_amount");
        reveal_strlit("paypal_fee");
        reveal_strlit("paypal_fee_in_receivable_currency");
        reveal_strlit("net_amount");
        reveal_strlit("receivable_amount");
        reveal_strlit("exchange_rate");
        assert("platform_fees"@.len() == 13);
        assert("gross_amount"@.len() == 12);
        assert("paypal_fee"@.len() == 10);
        assert("paypal_fee_in_receivable_currency"@.len() == 33);
        assert("net_amount"@.len() == 10);
        assert("receivable_amount"@.len() == 17);
        assert("exchange_rate"@.len() == 13);
        assert("platform_fees"@[0] == 'p');
        assert("exchange_rate"@[0] == 'e');
        assert("paypal_fee"@[0] == 'p');
        assert("net_amount"@[0] == 'n');
    }

    /// Where the `gross_amount` field stands in the wire document.
    proof fn lemma_lookup_gross_amount(t: Self)
        ensures
            lookup(t.wire_fields(), "gross_amount"@) == Some(t.gross_amount.encoding()),
    {
        reveal_strlit("platform_fees");
        reveal_strlit("gross_amount");
        reveal_strlit("paypal_fee");
        reveal_strlit("paypal_fee_in_receivable_currency");
        reveal_strlit("net_amount");
        reveal_strlit("receivable_amount");
        reveal_strlit("exchange_rate");
        assert("platform_fees"@.len() == 13);
        assert("gross_amount"@.len() == 12);
        assert("paypal_fee"@.len() == 10);
        assert("paypal_fee_in_receivable_currency"@.len() == 33);
        assert("net_amount"@.len() == 10);
        assert("receivable_amount"@.len() == 17);
        assert("exchange_rate"@.len() == 13);
        assert("platform_fees"@[0] == 'p');
        assert("exchange_rate"@[0] == 'e');
        assert("paypal_fee"@[0] == 'p');
        assert("net_amount"@[0] == 'n');
    }

    /// Where the `paypal_fee` field stands in the wire document.
    proof fn lemma_lookup_paypal_fee(t: Self)
        ensures
            lookup(t.wire_fields(), "paypal_fee"@) == Some(t.paypal_fee.encoding()),
    {
        reveal_strlit("platform_fees");
        reveal_strlit("gross_amount");
        reveal_strlit("paypal_fee");
        reveal_strlit("paypal_fee_in_receivable_currency");
        reveal_strlit("net_amount");
        reveal_strlit("receivable_amount");
        reveal_strlit("exchange_rate");
        assert("platform_fees"@.len() == 13);
        assert("gross_amount"@.len() == 12);
        assert("paypal_fee"@.len() == 10);
        assert("paypal_fee_in_receivable_currency"@.len() == 33);
        assert("net_amount"@.len() == 10);
        assert("receivable_amount"@.len() == 17);
        assert("exchange_rate"@.len() == 13);
        assert("platform_fees"@[0] == 'p');
        assert("exchange_rate"@[0] == 'e');
        assert("paypal_fee"@[0] == 'p');
        assert("net_amount"@[0] == 'n');
    }

    /// Where the `paypal_fee_in_receivable_currency` field stands in the wire document.
    proof fn lemma_lookup_paypal_fee_in_receivable_currency(t: Self)
        ensures
            lookup(t.wire_fields(), "paypal_fee_in_receivable_currency"@) == (match t.paypal_fee_in_receivable_currency {
                Some(x) => Some(x.encoding()),
                None => None::<Jv>,
            }),
    {
        reveal_strlit("platform_fees");
        reveal_strlit("gross_amount");
        reveal_strlit("paypal_fee");
        reveal_strlit("paypal_fee_in_receivable_currency");
        reveal_strlit("net_amount");
        reveal_strlit("receivable_amount");
        reveal_strlit("exchange_rate");
        assert("platform_fees"@.len() == 13);
        assert("gross_amount"@.len() == 12);
        assert("paypal_fee"@.len() == 10);
        assert("paypal_fee_in_receivable_currency"@.len() == 33);
        assert("net_amount"@.len() == 10);
        assert("receivable_amount"@.len() == 17);
        assert("exchange_rate"@.len() == 13);
        assert("platform_fees"@[0] == 'p');
        assert("exchange_rate"@[0] == 'e');
        assert("paypal_fee"@[0] == 'p');
        assert("net_amount"@[0] == 'n');
    }

    /// Where the `net_amount` field stands in the wire document.
    proof fn lemma_lookup_net_amount(t: Self)
        ensures
            lookup(t.wire_fields(), "net_amount"@) == (match t.net_amount {
                Some(x) => Some(x.encoding()),
                None => None::<Jv>,
            }),
    {
        reveal_strlit("platform_fees");
        reveal_strlit("gross_amount");
        reveal_strlit("paypal_fee");
        reveal_strlit("paypal_fee_in_receivable_currency");
        reveal_strlit("net_amount");
        reveal_strlit("receivable_amount");
        reveal_strlit("exchange_rate");
        assert("platform_fees"@.len() == 13);
        assert("gross_amount"@.len() == 12);
        assert("paypal_fee"@.len() == 10);
        assert("paypal_fee_in_receivable_currency"@.len() == 33);
        assert("net_amount"@.len() == 10);
        assert("receivable_amount"@.len() == 17);
        assert("exchange_rate"@.len() == 13);
        assert("platform_fees"@[0] == 'p');
        assert("exchange_rate"@[0] == 'e');
        assert("paypal_fee"@[0] == 'p');
        assert("net_amount"@[0] == 'n');
    }

    /// Where the `receivable_amount` field stands in the wire document.
    proof fn lemma_lookup_receivable_amount(t: Self)
        ensures
            lookup(t.wire_fields(), "receivable_amount"@) == (match t.receivable_amount {
                Some(x) => Some(x.encoding()),
                None => None::<Jv>,
            }),
    {
        reveal_strlit("platform_fees");
        reveal_strlit("gross_amount");
        reveal_strlit("paypal_fee");
        reveal_strlit("paypal_fee_in_receivable_currency");
        reveal_strlit("net_amount");
        reveal_strlit("receivable_amount");
        reveal_strlit("exchange_rate");
        assert("platform_fees"@.len() == 13);
        assert("gross_amount"@.len() == 12);
        assert("paypal_fee"@.len() == 10);
        assert("paypal_fee_in_receivable_currency"@.len() == 33);
        assert("net_amount"@.len() == 10);
        assert("receivable_amount"@.len() == 17);
        assert("exchange_rate"@.len() == 13);
        assert("platform_fees"@[0] == 'p');
        assert("exchange_rate"@[0] == 'e');
        assert("paypal_fee"@[0] == 'p');
        assert("net_amount"@[0] == 'n');
    }

    /// Where the `exchange_rate` field stands in the wire document.
    proof fn lemma_lookup_exchange_rate(t: Self)
        ensures
            lookup(t.wire_fields(), "exchange_rate"@) == (match t.exchange_rate {
                Some(x) => Some(x.encoding()),
                None => None::<Jv>,
            }),
    {
        reveal_strlit("platform_fees");
        reveal_strlit("gross_amount");
        reveal_strlit("paypal_fee");
        reveal_strlit("paypal_fee_in_receivable_currency");
        reveal_strlit("net_amount");
        reveal_strlit("receivable_amount");
        reveal_strlit("exchange_rate");
        assert("platform_fees"@.len() == 13);
        assert("gross_amount"@.len() == 12);
        assert("paypal_fee"@.len() == 10);
        assert("paypal_fee_in_receivable_currency"@.len() == 33);
        assert("net_amount"@.len() == 10);
        assert("receivable_amount"@.len() == 17);
        assert("exchange_rate"@.len() == 13);
        assert("platform_fees"@[0] == 'p');
        assert("exchange_rate"@[0] == 'e');
        assert("paypal_fee"@[0] == 'p');
        assert("net_amount"@[0] == 'n');
    }
}

impl WireCodec for SellerReceivableBreakdown {
    open spec fn encoding(self) -> Jv {
        Jv::Object(self.wire_fields())
    }

    open spec fn can_decode(v: Jv) -> bool {
        match v {
            Jv::Object(fs) => {
                &&& opt_ok::<Vec<PlatformFee>>(fs, "platform_fees"@)
                &&& req_ok::<Money>(fs, "gross_amount"@)
                &&& req_ok::<Money>(fs, "paypal_fee"@)
                &&& opt_ok::<Money>(fs, "paypal_fee_in_receivable_currency"@)
                &&& opt_ok::<Money>(fs, "net_amount"@)
                &&& opt_ok::<Money>(fs, "receivable_amount"@)
                &&& opt_ok::<ExchangeRateDetail>(fs, "exchange_rate"@)
            },
            _ => false,
        }
    }

    open spec fn decodes_to(v: Jv, t: Self) -> bool {
        match v {
            Jv::Object(fs) => {
                &&& opt_rel::<Vec<PlatformFee>>(fs, "platform_fees"@, t.platform_fees)
                &&& req_rel::<Money>(fs, "gross_amount"@, t.gross_amount)
                &&& req_rel::<Money>(fs, "paypal_fee"@, t.paypal_fee)
                &&& opt_rel::<Money>(fs, "paypal_fee_in_receivable_currency"@, t.paypal_fee_in_receivable_currency)
                &&& opt_rel::<Money>(fs, "net_amount"@, t.net_amount)
                &&& opt_rel::<Money>(fs, "receivable_amount"@, t.receivable_amount)
                &&& opt_rel::<ExchangeRateDetail>(fs, "exchange_rate"@, t.exchange_rate)
            },
            _ => false,
        }
    }

    #[verifier::rlimit(100)]
    fn encode(&self) -> (r: JsonValue) {
        let mut fs: Vec<(String, JsonValue)> = Vec::new();
        push_opt(&mut fs, "platform_fees", &self.platform_fees);
        push_req(&mut fs, "gross_amount", &self.gross_amount);
        push_req(&mut fs, "paypal_fee", &self.paypal_fee);
        push_opt(&mut fs, "paypal_fee_in_receivable_currency", &self.paypal_fee_in_receivable_currency);
        push_opt(&mut fs, "net_amount", &self.net_amount);
        push_opt(&mut fs, "receivable_amount", &self.receivable_amount);
        push_opt(&mut fs, "exchange_rate", &self.exchange_rate);
        proof {
            crate::json::lemma_concat_left_empty(opt_entry("platform_fees"@, (*self).platform_fees));
            assert(jv_of_fields(fs@) == (*self).wire_fields());
        }
        JsonValue::Object(fs)
    }

    fn decode(v: &JsonValue) -> (r: Result<Self, DecodeError>) {
        match v {
            JsonValue::Object(fields) => {
                let platform_fees = match get_opt::<Vec<PlatformFee>>(fields, "platform_fees") {
                    Ok(x) => x,
                    Err(e) => return Err(e),
                };
                let gross_amount = match get_req::<Money>(fields, "gross_amount") {
                    Ok(x) => x,
                    Err(e) => return Err(e),
                };
                let paypal_fee = match get_req::<Money>(fields, "paypal_fee") {
                    Ok(x) => x,
                    Err(e) => return Err(e),
                };
                let paypal_fee_in_receivable_currency = match get_opt::<Money>(fields, "paypal_fee_in_receivable_currency") {
                    Ok(x) => x,
                    Err(e) => return Err(e),
                };
                let net_amount = match get_opt::<Money>(fields, "net_amount") {
                    Ok(x) => x,
                    Err(e) => return Err(e),
                };
                let receivable_amount = match get_opt::<Money>(fields, "receivable_amount") {
                    Ok(x) => x,
                    Err(e) => return Err(e),
                };
                let exchange_rate = match get_opt::<ExchangeRateDetail>(fields, "exchange_rate") {
                    Ok(x) => x,
                    Err(e) => return Err(e),
                };
                Ok(SellerReceivableBreakdown { platform_fees, gross_amount, paypal_fee, paypal_fee_in_receivable_currency, net_amount, receivable_amount, exchange_rate })
            },
            _ => Err(DecodeError::WrongType("object".to_owned())),
        }
    }

    #[verifier::rlimit(100)]
    proof fn lemma_round_trip(t: Self, u: Self) {
        Self::lemma_lookup_platform_fees(t);
        Self::lemma_lookup_gross_amount(t);
        Self::lemma_lookup_paypal_fee(t);
        Self::lemma_lookup_paypal_fee_in_receivable_currency(t);
        Self::lemma_lookup_net_amount(t);
        Self::lemma_lookup_receivable_amount(t);
        Self::lemma_lookup_exchange_rate(t);
        if let Some(x) = t.platform_fees {
            <Vec<PlatformFee> as WireCodec>::lemma_round_trip(x, x);
        }
        Money::lemma_round_trip(t.gross_amount, u.gross_amount);
        Money::lemma_round_trip(t.paypal_fee, u.paypal_fee);
        if let Some(x) = t.paypal_fee_in_receivable_currency {
            Money::lemma_round_trip(x, x);
        }
        if let Some(x) = t.net_amount {
            Money::lemma_round_trip(x, x);
        }
        if let Some(x) = t.receivable_amount {
            Money::lemma_round_trip(x, x);
        }
        if let Some(x) = t.exchange_rate {
            ExchangeRateDetail::lemma_round_trip(x, x);
        }
        if Self::decodes_to(t.encoding(), u) {
            if let (Some(x), Some(y)) = (t.platform_fees, u.platform_fees) {
                <Vec<PlatformFee> as WireCodec>::lemma_round_trip(x, y);
            }
            if let (Some(x), Some(y)) = (t.paypal_fee_in_receivable_currency, u.paypal_fee_in_receivable_currency) {
                Money::lemma_round_trip(x, y);
            }
            if let (Some(x), Some(y)) = (t.net_amount, u.net_amount) {
                Money::lemma_round_trip(x, y);
            }
            if let (Some(x), Some(y)) = (t.receivable_amount, u.receivable_amount) {
                Money::lemma_round_trip(x, y);
            }
            if let (Some(x), Some(y)) = (t.exchange_rate, u.exchange_rate) {
                ExchangeRateDetail::lemma_round_trip(x, y);
            }
            assert(opt_entry("platform_fees"@, u.platform_fees) == opt_entry("platform_fees"@, t.platform_fees));
            assert(field_entry("gross_amount"@, u.gross_amount.encoding()) == field_entry("gross_amount"@, t.gross_amount.encoding()));
            assert(field_entry("paypal_fee"@, u.paypal_fee.encoding()) == field_entry("paypal_fee"@, t.paypal_fee.encoding()));
            assert(opt_entry("paypal_fee_in_receivable_currency"@, u.paypal_fee_in_receivable_currency) == opt_entry("paypal_fee_in_receivable_currency"@, t.paypal_fee_in_receivable_currency));
            assert(opt_entry("net_amount"@, u.net_amount) == opt_entry("net_amount"@, t.net_amount));
            assert(opt_entry("receivable_amount"@, u.receivable_amount) == opt_entry("receivable_amount"@, t.receivable_amount));
            assert(opt_entry("exchange_rate"@, u.exchange_rate) == opt_entry("exchange_rate"@, t.exchange_rate));
            assert(u.wire_fields() == t.wire_fields());
        }
    }
}

/// A captured payment.
#[derive(Debug, PartialEq)]
pub struct Capture {
    /// When the transaction occurred, as an ISO-8601 timestamp.
    pub create_time: Option<String>,
    /// When the transaction was last updated, as an ISO-8601 timestamp.
    pub update_time: Option<String>,
    /// The PayPal-generated ID for the captured payment.
    pub id: Option<String>,
    /// The API caller-provided external invoice number for this order.
    pub invoice_id: Option<String>,
    /// The API caller-provided external ID.
    pub custom_id: Option<String>,
    /// Whether additional captures can be made against the authorization.
    pub final_capture: Option<bool>,
    /// Related HATEOAS links.
    pub links: Option<Vec<LinkDescription>>,
    /// The amount for this captured payment.
    pub amount: Money,
    /// Reference values used by the card network for the transaction.
    pub network_transaction_reference: Option<NetworkTransactionReference>,
    /// The level of seller protection for the transaction.
    pub seller_protection: Option<SellerProtection>,
    /// The status of the captured payment.
    pub status: CaptureStatus,
    /// The details of the captured payment's status.
    pub status_details: Option<CaptureStatusDetails>,
    /// The detailed breakdown of the capture, absent for pending captures.
    pub seller_receivable_breakdown: Option<SellerReceivableBreakdown>,
    /// How the funds held on behalf of the merchant are disbursed.
    pub disbursement_mode: Option<DisbursementMode>,
    /// Additional processor information for a direct credit card
    /// transaction, carried as an opaque JSON document.
    pub processor_response: Option<JsonValue>,
}

impl Capture {
    /// The fields of this value's wire document, in emission order.
    pub open spec fn wire_fields(self) -> Seq<(Seq<char>, Jv)> {
        opt_entry("create_time"@, self.create_time) + opt_entry("update_time"@, self.update_time) + opt_entry("id"@, self.id) + opt_entry("invoice_id"@, self.invoice_id) + opt_entry("custom_id"@, self.custom_id) + opt_entry("final_capture"@, self.final_capture) + opt_entry("links"@, self.links) + field_entry("amount"@, self.amount.encoding()) + opt_entry("network_transaction_reference"@, self.network_transaction_reference) + opt_entry("seller_protection"@, self.seller_protection) + field_entry("status"@, self.status.encoding()) + opt_entry("status_details"@, self.status_details) + opt_entry("seller_receivable_breakdown"@, self.seller_receivable_breakdown) + opt_entry("disbursement_mode"@, self.disbursement_mode) + opt_entry("processor_response"@, self.processor_response)
    }

    /// Where the `create_time` field stands in the wire document.
    proof fn lemma_lookup_create_time(t: Self)
        ensures
            lookup(t.wire_fields(), "create_time"@) == (match t.create_time {
                Some(x) => Some(x.encoding()),
                None => None::<Jv>,
            }),
    {
        reveal_strlit("create_time");
        reveal_strlit("update_time");
        reveal_strlit("id");
        reveal_strlit("invoice_id");
        reveal_strlit("custom_id");
        reveal_strlit("final_capture");
        reveal_strlit("links");
        reveal_strlit("amount");
        reveal_strlit("network_transaction_reference");
        reveal_strlit("seller_protection");
        reveal_strlit("status");
        reveal_strlit("status_details");
        reveal_strlit("seller_receivable_breakdown");
        reveal_strlit("disbursement_mode");
        reveal_strlit("processor_response");
        assert("create_time"@.len() == 11);
        assert("update_time"@.len() == 11);
        assert("id"@.len() == 2);
        assert("invoice_id"@.len() == 10);
        assert("custom_id"@.len() == 9);
        assert("final_capture"@.len() == 13);
        assert("links"@.len() == 5);
        assert("amount"@.len() == 6);
        assert("network_transaction_reference"@.len() == 29);
        assert("seller_protection"@.len() == 17);
        assert("status"@.len() == 6);
        assert("status_details"@.len() == 14);
        assert("seller_receivable_breakdown"@.len() == 27);
        assert("disbursement_mode"@.len() == 17);
        assert("processor_response"@.len() == 18);
        assert("create_time"@[0] == 'c');
        assert("update_time"@[0] == 'u');
        assert("amount"@[0] == 'a');
        assert("status"@[0] == 's');
        assert("seller_protection"@[0] == 's');
        assert("disbursement_mode"@[0] == 'd');
    }

    /// Where the `update_time` field stands in the wire document.
    proof fn lemma_lookup_update_time(t: Self)
        ensures
            lookup(t.wire_fields(), "update_time"@) == (match t.update_time {
                Some(x) => Some(x.encoding()),
                None => None::<Jv>,
            }),
    {
        reveal_strlit("create_time");
        reveal_strlit("update_time");
        reveal_strlit("id");
        reveal_strlit("invoice_id");
        reveal_strlit("custom_id");
        reveal_strlit("final_capture");
        reveal_strlit("links");
        reveal_strlit("amount");
        reveal_strlit("network_transaction_reference");
        reveal_strlit("seller_protection");
        reveal_strlit("status");
        reveal_strlit("status_details");
        reveal_strlit("seller_receivable_breakdown");
        reveal_strlit("disbursement_mode");
        reveal_strlit("processor_response");
        assert("create_time"@.len() == 11);
        assert("update_time"@.len() == 11);
        assert("id"@.len() == 2);
        assert("invoice_id"@.len() == 10);
        assert("custom_id"@.len() == 9);
        assert("final_capture"@.len() == 13);
        assert("links"@.len() == 5);
        assert("amount"@.len() == 6);
        assert("network_transaction_reference"@.len() == 29);
        assert("seller_protection"@.len() == 17);
        assert("status"@.len() == 6);
        assert("status_details"@.len() == 14);
        assert("seller_receivable_breakdown"@.len() == 27);
        assert("disbursement_mode"@.len() == 17);
        assert("processor_response"@.len() == 18);
        assert("create_time"@[0] == 'c');
        assert("update_time"@[0] == 'u');
        assert("amount"@[0] == 'a');
        assert("status"@[0] == 's');
        assert("seller_protection"@[0] == 's');
        assert("disbursement_mode"@[0] == 'd');
    }

    /// Where the `id` field stands in the wire document.
    proof fn lemma_lookup_id(t: Self)
        ensures
            lookup(t.wire_fields(), "id"@) == (match t.id {
                Some(x) => Some(x.encoding()),
                None => None::<Jv>,
            }),
    {
        reveal_strlit("create_time");
        reveal_strlit("update_time");
        reveal_strlit("id");
        reveal_strlit("invoice_id");
        reveal_strlit("custom_id");
        reveal_strlit("final_capture");
        reveal_strlit("links");
        reveal_strlit("amount");
        reveal_strlit("network_transaction_reference");
        reveal_strlit("seller_protection");
        reveal_strlit("status");
        reveal_strlit("status_details");
        reveal_strlit("seller_receivable_breakdown");
        reveal_strlit("disbursement_mode");
        reveal_strlit("processor_response");
        assert("create_time"@.len() == 11);
        assert("update_time"@.len() == 11);
        assert("id"@.len() == 2);
        assert("invoice_id"@.len() == 10);
        assert("custom_id"@.len() == 9);
        assert("final_capture"@.len() == 13);
        assert("links"@.len() == 5);
        assert("amount"@.len() == 6);
        assert("network_transaction_reference"@.len() == 29);
        assert("seller_protection"@.len() == 17);
        assert("status"@.len() == 6);
        assert("status_details"@.len() == 14);
        assert("seller_receivable_breakdown"@.len() == 27);
        assert("disbursement_mode"@.len() == 17);
        assert("processor_response"@.len() == 18);
        assert("create_time"@[0] == 'c');
        assert("update_time"@[0] == 'u');
        assert("amount"@[0] == 'a');
        assert("status"@[0] == 's');
        assert("seller_protection"@[0] == 's');
        assert("disbursement_mode"@[0] == 'd');
    }

    /// Where the `invoice_id` field stands in the wire document.
    proof fn lemma_lookup_invoice_id(t: Self)
        ensures
            lookup(t.wire_fields(), "invoice_id"@) == (match t.invoice_id {
                Some(x) => Some(x.encoding()),
                None => None::<Jv>,
            }),
    {
        reveal_strlit("create_time");
        reveal_strlit("update_time");
        reveal_strlit("id");
        reveal_strlit("invoice_id");
        reveal_strlit("custom_id");
        reveal_strlit("final_capture");
        reveal_strlit("links");
        reveal_strlit("amount");
        reveal_strlit("network_transaction_reference");
        reveal_strlit("seller_protection");
        reveal_strlit("status");
        reveal_strlit("status_details");
        reveal_strlit("seller_receivable_breakdown");
        reveal_strlit("disbursement_mode");
        reveal_strlit("processor_response");
        assert("create_time"@.len() == 11);
        assert("update_time"@.len() == 11);
        assert("id"@.len() == 2);
        assert("invoice_id"@.len() == 10);
        assert("custom_id"@.len() == 9);
        assert("final_capture"@.len() == 13);
        assert("links"@.len() == 5);
        assert("amount"@.len() == 6);
        assert("network_transaction_reference"@.len() == 29);
        assert("seller_protection"@.len() == 17);
        assert("status"@.len() == 6);
        assert("status_details"@.len() == 14);
        assert("seller_receivable_breakdown"@.len() == 27);
        assert("disbursement_mode"@.len() == 17);
        assert("processor_response"@.len() == 18);
        assert("create_time"@[0] == 'c');
        assert("update_time"@[0] == 'u');
        assert("amount"@[0] == 'a');
        assert("status"@[0] == 's');
        assert("seller_protection"@[0] == 's');
        assert("disbursement_mode"@[0] == 'd');
    }

    /// Where the `custom_id` field stands in the wire document.
    proof fn lemma_lookup_custom_id(t: Self)
        ensures
            lookup(t.wire_fields(), "custom_id"@) == (match t.custom_id {
                Some(x) => Some(x.encoding()),
                None => None::<Jv>,
            }),
    {
        reveal_strlit("create_time");
        reveal_strlit("update_time");
        reveal_strlit("id");
        reveal_strlit("invoice_id");
        reveal_strlit("custom_id");
        reveal_strlit("final_capture");
        reveal_strlit("links");
        reveal_strlit("amount");
        reveal_strlit("network_transaction_reference");
        reveal_strlit("seller_protection");
        reveal_strlit("status");
        reveal_strlit("status_details");
        reveal_strlit("seller_receivable_breakdown");
        reveal_strlit("disbursement_mode");
        reveal_strlit("processor_response");
        assert("create_time"@.len() == 11);
        assert("update_time"@.len() == 11);
        assert("id"@.len() == 2);
        assert("invoice_id"@.len() == 10);
        assert("custom_id"@.len() == 9);
        assert("final_capture"@.len() == 13);
        assert("links"@.len() == 5);
        assert("amount"@.len() == 6);
        assert("network_transaction_reference"@.len() == 29);
        assert("seller_protection"@.len() == 17);
        assert("status"@.len() == 6);
        assert("status_details"@.len() == 14);
        assert("seller_receivable_breakdown"@.len() == 27);
        assert("disbursement_mode"@.len() == 17);
        assert("processor_response"@.len() == 18);
        assert("create_time"@[0] == 'c');
        assert("update_time"@[0] == 'u');
        assert("amount"@[0] == 'a');
        assert("status"@[0] == 's');
        assert("seller_protection"@[0] == 's');
        assert("disbursement_mode"@[0] == 'd');
    }

    /// Where the `final_capture` field stands in the wire document.
    proof fn lemma_lookup_final_capture(t: Self)
        ensures
            lookup(t.wire_fields(), "final_capture"@) == (match t.final_capture {
                Some(x) => Some(x.encoding()),
                None => None::<Jv>,
            }),
    {
        reveal_strlit("create_time");
        reveal_strlit("update_time");
        reveal_strlit("id");
        reveal_strlit("invoice_id");
        reveal_strlit("custom_id");
        reveal_strlit("final_capture");
        reveal_strlit("links");
        reveal_strlit("amount");
        reveal_strlit("network_transaction_reference");
        reveal_strlit("seller_protection");
        reveal_strlit("status");
        reveal_strlit("status_details");
        reveal_strlit("seller_receivable_breakdown");
        reveal_strlit("disbursement_mode");
        reveal_strlit("processor_response");
        assert("create_time"@.len() == 11);
        assert("update_time"@.len() == 11);
        assert("id"@.len() == 2);
        assert("invoice_id"@.len() == 10);
        assert("custom_id"@.len() == 9);
        assert("final_capture"@.len() == 13);
        assert("links"@.len() == 5);
        assert("amount"@.len() == 6);
        assert("network_transaction_reference"@.len() == 29);
        assert("seller_protection"@.len() == 17);
        assert("status"@.len() == 6);
        assert("status_details"@.len() == 14);
        assert("seller_receivable_breakdown"@.len() == 27);
        assert("disbursement_mode"@.len() == 17);
        assert("processor_response"@.len() == 18);
        assert("create_time"@[0] == 'c');
        assert("update_time"@[0] == 'u');
        assert("amount"@[0] == 'a');
        assert("status"@[0] == 's');
        assert("seller_protection"@[0] == 's');
        assert("disbursement_mode"@[0] == 'd');
    }

    /// Where the `links` field stands in the wire document.
    proof fn lemma_lookup_links(t: Self)
        ensures
            lookup(t.wire_fields(), "links"@) == (match t.links {
                Some(x) => Some(x.encoding()),
                None => None::<Jv>,
            }),
    {
        reveal_strlit("create_time");
        reveal_strlit("update_time");
        reveal_strlit("id");
        reveal_strlit("invoice_id");
        reveal_strlit("custom_id");
        reveal_strlit("final_capture");
        reveal_strlit("links");
        reveal_strlit("amount");
        reveal_strlit("network_transaction_reference");
        reveal_strlit("seller_protection");
        reveal_strlit("status");
        reveal_strlit("status_details");
        reveal_strlit("seller_receivable_breakdown");
        reveal_strlit("disbursement_mode");
        reveal_strlit("processor_response");
        assert("create_time"@.len() == 11);
        assert("update_time"@.len() == 11);
        assert("id"@.len() == 2);
        assert("invoice_id"@.len() == 10);
        assert("custom_id"@.len() == 9);
        assert("final_capture"@.len() == 13);
        assert("links"@.len() == 5);
        assert("amount"@.len() == 6);
        assert("network_transaction_reference"@.len() == 29);
        assert("seller_protection"@.len() == 17);
        assert("status"@.len() == 6);
        assert("status_details"@.len() == 14);
        assert("seller_receivable_breakdown"@.len() == 27);
        assert("disbursement_mode"@.len() == 17);
        assert("processor_response"@.len() == 18);
        assert("create_time"@[0] == 'c');
        assert("update_time"@[0] == 'u');
        assert("amount"@[0] == 'a');
        assert("status"@[0] == 's');
        assert("seller_protection"@[0] == 's');
        assert("disbursement_mode"@[0] == 'd');
    }

    /// Where the `amount` field stands in the wire document.
    proof fn lemma_lookup_amount(t: Self)
        ensures
            lookup(t.wire_fields(), "amount"@) == Some(t.amount.encoding()),
    {
        reveal_strlit("create_time");
        reveal_strlit("update_time");
        reveal_strlit("id");
        reveal_strlit("invoice_id");
        reveal_strlit("custom_id");
        reveal_strlit("final_capture");
        reveal_strlit("links");
        reveal_strlit("amount");
        reveal_strlit("network_transaction_reference");
        reveal_strlit("seller_protection");
        reveal_strlit("status");
        reveal_strlit("status_details");
        reveal_strlit("seller_receivable_breakdown");
        reveal_strlit("disbursement_mode");
        reveal_strlit("processor_response");
        assert("create_time"@.len() == 11);
        assert("update_time"@.len() == 11);
        assert("id"@.len() == 2);
        assert("invoice_id"@.len() == 10);
        assert("custom_id"@.len() == 9);
        assert("final_capture"@.len() == 13);
        assert("links"@.len() == 5);
        assert("amount"@.len() == 6);
        assert("network_transaction_reference"@.len() == 29);
        assert("seller_protection"@.len() == 17);
        assert("status"@.len() == 6);
        assert("status_details"@.len() == 14);
        assert("seller_receivable_breakdown"@.len() == 27);
        assert("disbursement_mode"@.len() == 17);
        assert("processor_response"@.len() == 18);
        assert("create_time"@[0] == 'c');
        assert("update_time"@[0] == 'u');
        assert("amount"@[0] == 'a');
        assert("status"@[0] == 's');
        assert("seller_protection"@[0] == 's');
        assert("disbursement_mode"@[0] == 'd');
    }

    /// Where the `network_transaction_reference` field stands in the wire document.
    proof fn lemma_lookup_network_transaction_reference(t: Self)
        ensures
            lookup(t.wire_fields(), "network_transaction_reference"@) == (match t.network_transaction_reference {
                Some(x) => Some(x.encoding()),
                None => None::<Jv>,
            }),
    {
        reveal_strlit("create_time");
        reveal_strlit("update_time");
        reveal_strlit("id");
        reveal_strlit("invoice_id");
        reveal_strlit("custom_id");
        reveal_strlit("final_capture");
        reveal_strlit("links");
        reveal_strlit("amount");
        reveal_strlit("network_transaction_reference");
        reveal_strlit("seller_protection");
        reveal_strlit("status");
        reveal_strlit("status_details");
        reveal_strlit("seller_receivable_breakdown");
        reveal_strlit("disbursement_mode");
        reveal_strlit("processor_response");
        assert("create_time"@.len() == 11);
        assert("update_time"@.len() == 11);
        assert("id"@.len() == 2);
        assert("invoice_id"@.len() == 10);
        assert("custom_id"@.len() == 9);
        assert("final_capture"@.len() == 13);
        assert("links"@.len() == 5);
        assert("amount"@.len() == 6);
        assert("network_transaction_reference"@.len() == 29);
        assert("seller_protection"@.len() == 17);
        assert("status"@.len() == 6);
        assert("status_details"@.len() == 14);
        assert("seller_receivable_breakdown"@.len() == 27);
        assert("disbursement_mode"@.len() == 17);
        assert("processor_response"@.len() == 18);
        assert("create_time"@[0] == 'c');
        assert("update_time"@[0] == 'u');
        assert("amount"@[0] == 'a');
        assert("status"@[0] == 's');
        assert("seller_protection"@[0] == 's');
        assert("disbursement_mode"@[0] == 'd');
    }

    /// Where the `seller_protection` field stands in the wire document.
    proof fn lemma_lookup_seller_protection(t: Self)
        ensures
            lookup(t.wire_fields(), "seller_protection"@) == (match t.seller_protection {
                Some(x) => Some(x.encoding()),
                None => None::<Jv>,
            }),
    {
        reveal_strlit("create_time");
        reveal_strlit("update_time");
        reveal_strlit("id");
        reveal_strlit("invoice_id");
        reveal_strlit("custom_id");
        reveal_strlit("final_capture");
        reveal_strlit("links");
        reveal_strlit("amount");
        reveal_strlit("network_transaction_reference");
        reveal_strlit("seller_protection");
        reveal_strlit("status");
        reveal_strlit("status_details");
        reveal_strlit("seller_receivable_breakdown");
        reveal_strlit("disbursement_mode");
        reveal_strlit("processor_response");
        assert("create_time"@.len() == 11);
        assert("update_time"@.len() == 11);
        assert("id"@.len() == 2);
        assert("invoice_id"@.len() == 10);
        assert("custom_id"@.len() == 9);
        assert("final_capture"@.len() == 13);
        assert("links"@.len() == 5);
        assert("amount"@.len() == 6);
        assert("network_transaction_reference"@.len() == 29);
        assert("seller_protection"@.len() == 17);
        assert("status"@.len() == 6);
        assert("status_details"@.len() == 14);
        assert("seller_receivable_breakdown"@.len() == 27);
        assert("disbursement_mode"@.len() == 17);
        assert("processor_response"@.len() == 18);
        assert("create_time"@[0] == 'c');
        assert("update_time"@[0] == 'u');
        assert("amount"@[0] == 'a');
        assert("status"@[0] == 's');
        assert("seller_protection"@[0] == 's');
        assert("disbursement_mode"@[0] == 'd');
    }

    /// Where the `status` field stands in the wire document.
    proof fn lemma_lookup_status(t: Self)
        ensures
            lookup(t.wire_fields(), "status"@) == Some(t.status.encoding()),
    {
        reveal_strlit("create_time");
        reveal_strlit("update_time");
        reveal_strlit("id");
        reveal_strlit("invoice_id");
        reveal_strlit("custom_id");
        reveal_strlit("final_capture");
        reveal_strlit("links");
        reveal_strlit("amount");
        reveal_strlit("network_transaction_reference");
        reveal_strlit("seller_protection");
        reveal_strlit("status");
        reveal_strlit("status_details");
        reveal_strlit("seller_receivable_breakdown");
        reveal_strlit("disbursement_mode");
        reveal_strlit("processor_response");
        assert("create_time"@.len() == 11);
        assert("update_time"@.len() == 11);
        assert("id"@.len() == 2);
        assert("invoice_id"@.len() == 10);
        assert("custom_id"@.len() == 9);
        assert("final_capture"@.len() == 13);
        assert("links"@.len() == 5);
        assert("amount"@.len() == 6);
        assert("network_transaction_reference"@.len() == 29);
        assert("seller_protection"@.len() == 17);
        assert("status"@.len() == 6);
        assert("status_details"@.len() == 14);
        assert("seller_receivable_breakdown"@.len() == 27);
        assert("disbursement_mode"@.len() == 17);
        assert("processor_response"@.len() == 18);
        assert("create_time"@[0] == 'c');
        assert("update_time"@[0] == 'u');
        assert("amount"@[0] == 'a');
        assert("status"@[0] == 's');
        assert("seller_protection"@[0] == 's');
        assert("disbursement_mode"@[0] == 'd');
    }

    /// Where the `status_details` field stands in the wire document.
    proof fn lemma_lookup_status_details(t: Self)
        ensures
            lookup(t.wire_fields(), "status_details"@) == (match t.status_details {
                Some(x) => Some(x.encoding()),
                None => None::<Jv>,
            }),
    {
        reveal_strlit("create_time");
        reveal_strlit("update_time");
        reveal_strlit("id");
        reveal_strlit("invoice_id");
        reveal_strlit("custom_id");
        reveal_strlit("final_capture");
        reveal_strlit("links");
        reveal_strlit("amount");
        reveal_strlit("network_transaction_reference");
        reveal_strlit("seller_protection");
        reveal_strlit("status");
        reveal_strlit("status_details");
        reveal_strlit("seller_receivable_breakdown");
        reveal_strlit("disbursement_mode");
        reveal_strlit("processor_response");
        assert("create_time"@.len() == 11);
        assert("update_time"@.len() == 11);
        assert("id"@.len() == 2);
        assert("invoice_id"@.len() == 10);
        assert("custom_id"@.len() == 9);
        assert("final_capture"@.len() == 13);
        assert("links"@.len() == 5);
        assert("amount"@.len() == 6);
        assert("network_transaction_reference"@.len() == 29);
        assert("seller_protection"@.len() == 17);
        assert("status"@.len() == 6);
        assert("status_details"@.len() == 14);
        assert("seller_receivable_breakdown"@.len() == 27);
        assert("disbursement_mode"@.len() == 17);
        assert("processor_response"@.len() == 18);
        assert("create_time"@[0] == 'c');
        assert("update_time"@[0] == 'u');
        assert("amount"@[0] == 'a');
        assert("status"@[0] == 's');
        assert("seller_protection"@[0] == 's');
        assert("disbursement_mode"@[0] == 'd');
    }

    /// Where the `seller_receivable_breakdown` field stands in the wire document.
    proof fn lemma_lookup_seller_receivable_breakdown(t: Self)
        ensures
            lookup(t.wire_fields(), "seller_receivable_breakdown"@) == (match t.seller_receivable_breakdown {
                Some(x) => Some(x.encoding()),
                None => None::<Jv>,
            }),
    {
        reveal_strlit("create_time");
        reveal_strlit("update_time");
        reveal_strlit("id");
        reveal_strlit("invoice_id");
        reveal_strlit("custom_id");
        reveal_strlit("final_capture");
        reveal_strlit("links");
        reveal_strlit("amount");
        reveal_strlit("network_transaction_reference");
        reveal_strlit("seller_protection");
        reveal_strlit("status");
        reveal_strlit("status_details");
        reveal_strlit("seller_receivable_breakdown");
        reveal_strlit("disbursement_mode");
        reveal_strlit("processor_response");
        assert("create_time"@.len() == 11);
        assert("update_time"@.len() == 11);
        assert("id"@.len() == 2);
        assert("invoice_id"@.len() == 10);
        assert("custom_id"@.len() == 9);
        assert("final_capture"@.len() == 13);
        assert("links"@.len() == 5);
        assert("amount"@.len() == 6);
        assert("network_transaction_reference"@.len() == 29);
        assert("seller_protection"@.len() == 17);
        assert("status"@.len() == 6);
        assert("status_details"@.len() == 14);
        assert("seller_receivable_breakdown"@.len() == 27);
        assert("disbursement_mode"@.len() == 17);
        assert("processor_response"@.len() == 18);
        assert("create_time"@[0] == 'c');
        assert("update_time"@[0] == 'u');
        assert("amount"@[0] == 'a');
        assert("status"@[0] == 's');
        assert("seller_protection"@[0] == 's');
        assert("disbursement_mode"@[0] == 'd');
    }

    /// Where the `disbursement_mode` field stands in the wire document.
    proof fn lemma_lookup_disbursement_mode(t: Self)
        ensures
            lookup(t.wire_fields(), "disbursement_mode"@) == (match t.disbursement_mode {
                Some(x) => Some(x.encoding()),
                None => None::<Jv>,
            }),
    {
        reveal_strlit("create_time");
        reveal_strlit("update_time");
        reveal_strlit("id");
        reveal_strlit("invoice_id");
        reveal_strlit("custom_id");
        reveal_strlit("final_capture");
        reveal_strlit("links");
        reveal_strlit("amount");
        reveal_strlit("network_transaction_reference");
        reveal_strlit("seller_protection");
        reveal_strlit("status");
        reveal_strlit("status_details");
        reveal_strlit("seller_receivable_breakdown");
        reveal_strlit("disbursement_mode");
        reveal_strlit("processor_response");
        assert("create_time"@.len() == 11);
        assert("update_time"@.len() == 11);
        assert("id"@.len() == 2);
        assert("invoice_id"@.len() == 10);
        assert("custom_id"@.len() == 9);
        assert("final_capture"@.len() == 13);
        assert("links"@.len() == 5);
        assert("amount"@.len() == 6);
        assert("network_transaction_reference"@.len() == 29);
        assert("seller_protection"@.len() == 17);
        assert("status"@.len() == 6);
        assert("status_details"@.len() == 14);
        assert("seller_receivable_breakdown"@.len() == 27);
        assert("disbursement_mode"@.len() == 17);
        assert("processor_response"@.len() == 18);
        assert("create_time"@[0] == 'c');
        assert("update_time"@[0] == 'u');
        assert("amount"@[0] == 'a');
        assert("status"@[0] == 's');
        assert("seller_protection"@[0] == 's');
        assert("disbursement_mode"@[0] == 'd');
    }

    /// Where the `processor_response` field stands in the wire document.
    proof fn lemma_lookup_processor_response(t: Self)
        ensures
            lookup(t.wire_fields(), "processor_response"@) == (match t.processor_response {
                Some(x) => Some(x.encoding()),
                None => None::<Jv>,
            }),
    {
        reveal_strlit("create_time");
        reveal_strlit("update_time");
        reveal_strlit("id");
        reveal_strlit("invoice_id");
        reveal_strlit("custom_id");
        reveal_strlit("final_capture");
        reveal_strlit("links");
        reveal_strlit("amount");
        reveal_strlit("network_transaction_reference");
        reveal_strlit("seller_protection");
        reveal_strlit("status");
        reveal_strlit("status_details");
        reveal_strlit("seller_receivable_breakdown");
        reveal_strlit("disbursement_mode");
        reveal_strlit("processor_response");
        assert("create_time"@.len() == 11);
        assert("update_time"@.len() == 11);
        assert("id"@.len() == 2);
        assert("invoice_id"@.len() == 10);
        assert("custom_id"@.len() == 9);
        assert("final_capture"@.len() == 13);
        assert("links"@.len() == 5);
        assert("amount"@.len() == 6);
        assert("network_transaction_reference"@.len() == 29);
        assert("seller_protection"@.len() == 17);
        assert("status"@.len() == 6);
        assert("status_details"@.len() == 14);
        assert("seller_receivable_breakdown"@.len() == 27);
        assert("disbursement_mode"@.len() == 17);
        assert("processor_response"@.len() == 18);
        assert("create_time"@[0] == 'c');
        assert("update_time"@[0] == 'u');
        assert("amount"@[0] == 'a');
        assert("status"@[0] == 's');
        assert("seller_protection"@[0] == 's');
        assert("disbursement_mode"@[0] == 'd');
    }
}

impl WireCodec for Capture {
    open spec fn encoding(self) -> Jv {
        Jv::Object(self.wire_fields())
    }

    open spec fn can_decode(v: Jv) -> bool {
        match v {
            Jv::Object(fs) => {
                &&& opt_ok::<String>(fs, "create_time"@)
                &&& opt_ok::<String>(fs, "update_time"@)
                &&& opt_ok::<String>(fs, "id"@)
                &&& opt_ok::<String>(fs, "invoice_id"@)
                &&& opt_ok::<String>(fs, "custom_id"@)
                &&& opt_ok::<bool>(fs, "final_capture"@)
                &&& opt_ok::<Vec<LinkDescription>>(fs, "links"@)
                &&& req_ok::<Money>(fs, "amount"@)
                &&& opt_ok::<NetworkTransactionReference>(fs, "network_transaction_reference"@)
                &&& opt_ok::<SellerProtection>(fs, "seller_protection"@)
                &&& req_ok::<CaptureStatus>(fs, "status"@)
                &&& opt_ok::<CaptureStatusDetails>(fs, "status_details"@)
                &&& opt_ok::<SellerReceivableBreakdown>(fs, "seller_receivable_breakdown"@)
                &&& opt_ok::<DisbursementMode>(fs, "disbursement_mode"@)
                &&& opt_ok::<JsonValue>(fs, "processor_response"@)
            },
            _ => false,
        }
    }

    open spec fn decodes_to(v: Jv, t: Self) -> bool {
        match v {
            Jv::Object(fs) => {
                &&& opt_rel::<String>(fs, "create_time"@, t.create_time)
                &&& opt_rel::<String>(fs, "update_time"@, t.update_time)
                &&& opt_rel::<String>(fs, "id"@, t.id)
                &&& opt_rel::<String>(fs, "invoice_id"@, t.invoice_id)
                &&& opt_rel::<String>(fs, "custom_id"@, t.custom_id)
                &&& opt_rel::<bool>(fs, "final_capture"@, t.final_capture)
                &&& opt_rel::<Vec<LinkDescription>>(fs, "links"@, t.links)
                &&& req_rel::<Money>(fs, "amount"@, t.amount)
                &&& opt_rel::<NetworkTransactionReference>(fs, "network_transaction_reference"@, t.network_transaction_reference)
                &&& opt_rel::<SellerProtection>(fs, "seller_protection"@, t.seller_protection)
                &&& req_rel::<CaptureStatus>(fs, "status"@, t.status)
                &&& opt_rel::<CaptureStatusDetails>(fs, "status_details"@, t.status_details)
                &&& opt_rel::<SellerReceivableBreakdown>(fs, "seller_receivable_breakdown"@, t.seller_receivable_breakdown)
                &&& opt_rel::<DisbursementMode>(fs, "disbursement_mode"@, t.disbursement_mode)
                &&& opt_rel::<JsonValue>(fs, "processor_response"@, t.processor_response)
            },
            _ => false,
        }
    }

    #[verifier::rlimit(100)]
    fn encode(&self) -> (r: JsonValue) {
        let mut fs: Vec<(String, JsonValue)> = Vec::new();
        push_opt(&mut fs, "create_time", &self.create_time);
        push_opt(&mut fs, "update_time", &self.update_time);
        push_opt(&mut fs, "id", &self.id);
        push_opt(&mut fs, "invoice_id", &self.invoice_id);
        push_opt(&mut fs, "custom_id", &self.custom_id);
        push_opt(&mut fs, "final_capture", &self.final_capture);
        push_opt(&mut fs, "links", &self.links);
        push_req(&mut fs, "amount", &self.amount);
        push_opt(&mut fs, "network_transaction_reference", &self.network_transaction_reference);
        push_opt(&mut fs, "seller_protection", &self.seller_protection);
        push_req(&mut fs, "status", &self.status);
        push_opt(&mut fs, "status_details", &self.status_details);
        push_opt(&mut fs, "seller_receivable_breakdown", &self.seller_receivable_breakdown);
        push_opt(&mut fs, "disbursement_mode", &self.disbursement_mode);
        push_opt(&mut fs, "processor_response", &self.processor_response);
        proof {
            crate::json::lemma_concat_left_empty(opt_entry("create_time"@, (*self).create_time));
            assert(jv_of_fields(fs@) == (*self).wire_fields());
        }
        JsonValue::Object(fs)
    }

    fn decode(v: &JsonValue) -> (r: Result<Self, DecodeError>) {
        match v {
            JsonValue::Object(fields) => {
                let create_time = match get_opt::<String>(fields, "create_time") {
                    Ok(x) => x,
                    Err(e) => return Err(e),
                };
                let update_time = match get_opt::<String>(fields, "update_time") {
                    Ok(x) => x,
                    Err(e) => return Err(e),
                };
                let id = match get_opt::<String>(fields, "id") {
                    Ok(x) => x,
                    Err(e) => return Err(e),
                };
                let invoice_id = match get_opt::<String>(fields, "invoice_id") {
                    Ok(x) => x,
                    Err(e) => return Err(e),
                };
                let custom_id = match get_opt::<String>(fields, "custom_id") {
                    Ok(x) => x,
                    Err(e) => return Err(e),
                };
                let final_capture = match get_opt::<bool>(fields, "final_capture") {
                    Ok(x) => x,
                    Err(e) => return Err(e),
                };
                let links = match get_opt::<Vec<LinkDescription>>(fields, "links") {
                    Ok(x) => x,
                    Err(e) => return Err(e),
                };
                let amount = match get_req::<Money>(fields, "amount") {
                    Ok(x) => x,
                    Err(e) => return Err(e),
                };
                let network_transaction_reference = match get_opt::<NetworkTransactionReference>(fields, "network_transaction_reference") {
                    Ok(x) => x,
                    Err(e) => return Err(e),
                };
                let seller_protection = match get_opt::<SellerProtection>(fields, "seller_protection") {
                    Ok(x) => x,
                    Err(e) => return Err(e),
                };
                let status = match get_req::<CaptureStatus>(fields, "status") {
                    Ok(x) => x,
                    Err(e) => return Err(e),
                };
                let status_details = match get_opt::<CaptureStatusDetails>(fields, "status_details") {
                    Ok(x) => x,
                    Err(e) => return Err(e),
                };
                let seller_receivable_breakdown = match get_opt::<SellerReceivableBreakdown>(fields, "seller_receivable_breakdown") {
                    Ok(x) => x,
                    Err(e) => return Err(e),
                };
                let disbursement_mode = match get_opt::<DisbursementMode>(fields, "disbursement_mode") {
                    Ok(x) => x,
                    Err(e) => return Err(e),
                };
                let processor_response = match get_opt::<JsonValue>(fields, "processor_response") {
                    Ok(x) => x,
                    Err(e) => return Err(e),
                };
                Ok(Capture { create_time, update_time, id, invoice_id, custom_id, final_capture, links, amount, network_transaction_reference, seller_protection, status, status_details, seller_receivable_breakdown, disbursement_mode, processor_response })
            },
            _ => Err(DecodeError::WrongType("object".to_owned())),
        }
    }

    #[verifier::rlimit(100)]
    proof fn lemma_round_trip(t: Self, u: Self) {
        Self::lemma_lookup_create_time(t);
        Self::lemma_lookup_update_time(t);
        Self::lemma_lookup_id(t);
        Self::lemma_lookup_invoice_id(t);
        Self::lemma_lookup_custom_id(t);
        Self::lemma_lookup_final_capture(t);
        Self::lemma_lookup_links(t);
        Self::lemma_lookup_amount(t);
        Self::lemma_lookup_network_transaction_reference(t);
        Self::lemma_lookup_seller_protection(t);
        Self::lemma_lookup_status(t);
        Self::lemma_lookup_status_details(t);
        Self::lemma_lookup_seller_receivable_breakdown(t);
        Self::lemma_lookup_disbursement_mode(t);
        Self::lemma_lookup_processor_response(t);
        if let Some(x) = t.links {
            <Vec<LinkDescription> as WireCodec>::lemma_round_trip(x, x);
        }
        Money::lemma_round_trip(t.amount, u.amount);
        if let Some(x) = t.network_transaction_reference {
            NetworkTransactionReference::lemma_round_trip(x, x);
        }
        if let Some(x) = t.seller_protection {
            SellerProtection::lemma_round_trip(x, x);
        }
        CaptureStatus::lemma_round_trip(t.status, u.status);
        if let Some(x) = t.status_details {
            CaptureStatusDetails::lemma_round_trip(x, x);
        }
        if let Some(x) = t.seller_receivable_breakdown {
            SellerReceivableBreakdown::lemma_round_trip(x, x);
        }
        if let Some(x) = t.disbursement_mode {
            DisbursementMode::lemma_round_trip(x, x);
        }
        if let Some(x) = t.processor_response {
            JsonValue::lemma_round_trip(x, x);
        }
        if Self::decodes_to(t.encoding(), u) {
            if let (Some(x), Some(y)) = (t.links, u.links) {
                <Vec<LinkDescription> as WireCodec>::lemma_round_trip(x, y);
            }
            if let (Some(x), Some(y)) = (t.network_transaction_reference, u.network_transaction_reference) {
                NetworkTransactionReference::lemma_round_trip(x, y);
            }
            if let (Some(x), Some(y)) = (t.seller_protection, u.seller_protection) {
                SellerProtection::lemma_round_trip(x, y);
            }
            if let (Some(x), Some(y)) = (t.status_details, u.status_details) {
                CaptureStatusDetails::lemma_round_trip(x, y);
            }
            if let (Some(x), Some(y)) = (t.seller_receivable_breakdown, u.seller_receivable_breakdown) {
                SellerReceivableBreakdown::lemma_round_trip(x, y);
            }
            if let (Some(x), Some(y)) = (t.disbursement_mode, u.disbursement_mode) {
                DisbursementMode::lemma_round_trip(x, y);
            }
            if let (Some(x), Some(y)) = (t.processor_response, u.processor_response) {
                JsonValue::lemma_round_trip(x, y);
            }
            assert(opt_entry("create_time"@, u.create_time) == opt_entry("create_time"@, t.create_time));
            assert(opt_entry("update_time"@, u.update_time) == opt_entry("update_time"@, t.update_time));
            assert(opt_entry("id"@, u.id) == opt_entry("id"@, t.id));
            assert(opt_entry("invoice_id"@, u.invoice_id) == opt_entry("invoice_id"@, t.invoice_id));
            assert(opt_entry("custom_id"@, u.custom_id) == opt_entry("custom_id"@, t.custom_id));
            assert(opt_entry("final_capture"@, u.final_capture) == opt_entry("final_capture"@, t.final_capture));
            assert(opt_entry("links"@, u.links) == opt_entry("links"@, t.links));
            assert(field_entry("amount"@, u.amount.encoding()) == field_entry("amount"@, t.amount.encoding()));
            assert(opt_entry("network_transaction_reference"@, u.network_transaction_reference) == opt_entry("network_transaction_reference"@, t.network_transaction_reference));
            assert(opt_entry("seller_protection"@, u.seller_protection) == opt_entry("seller_protection"@, t.seller_protection));
            assert(field_entry("status"@, u.status.encoding()) == field_entry("status"@, t.status.encoding()));
            assert(opt_entry("status_details"@, u.status_details) == opt_entry("status_details"@, t.status_details));
            assert(opt_entry("seller_receivable_breakdown"@, u.seller_receivable_breakdown) == opt_entry("seller_receivable_breakdown"@, t.seller_receivable_breakdown));
            assert(opt_entry("disbursement_mode"@, u.disbursement_mode) == opt_entry("disbursement_mode"@, t.disbursement_mode));
            assert(opt_entry("processor_response"@, u.processor_response) == opt_entry("processor_response"@, t.processor_response));
            assert(u.wire_fields() == t.wire_fields());
        }
    }
}

/// The status of a refund.
#[derive(Debug, Clone, Copy, PartialEq, Eq)]
pub enum RefundStatus {
    /// The refund was cancelled.
    Cancelled,
    /// The refund is pending; see its status details.
    Pending,
    /// The funds were debited to the customer's account.
    Completed,
    /// The refund could not be processed.
    Failed,
}

impl RefundStatus {
    /// The wire token of this value.
    pub open spec fn spec_token(self) -> Seq<char> {
        match self {
            RefundStatus::Cancelled => "CANCELLED"@,
            RefundStatus::Pending => "PENDING"@,
            RefundStatus::Completed => "COMPLETED"@,
            RefundStatus::Failed => "FAILED"@,
        }
    }

    /// Whether `s` is one of the documented tokens.
    pub open spec fn spec_is_token(s: Seq<char>) -> bool {
        ||| s == "CANCELLED"@
        ||| s == "PENDING"@
        ||| s == "COMPLETED"@
        ||| s == "FAILED"@
    }
}

impl WireCodec for RefundStatus {
    open spec fn encoding(self) -> Jv {
        Jv::Str(self.spec_token())
    }

    open spec fn can_decode(v: Jv) -> bool {
        match v {
            Jv::Str(s) => RefundStatus::spec_is_token(s),
            _ => false,
        }
    }

    open spec fn decodes_to(v: Jv, t: Self) -> bool {
        v == Jv::Str(t.spec_token())
    }

    fn encode(&self) -> (r: JsonValue) {
        let tok = match self {
            RefundStatus::Cancelled => "CANCELLED",
            RefundStatus::Pending => "PENDING",
            RefundStatus::Completed => "COMPLETED",
            RefundStatus::Failed => "FAILED",
        };
        JsonValue::Str(tok.to_owned())
    }

    fn decode(v: &JsonValue) -> (r: Result<Self, DecodeError>)
        ensures
            match r {
                Err(DecodeError::UnknownToken(s)) => v@ == Jv::Str(s@)
                    && !RefundStatus::spec_is_token(s@),
                Err(DecodeError::WrongType(_)) => !(v@ is Str),
                Err(DecodeError::MissingField(_)) => false,
                Ok(_) => true,
            },
    {
        match v {
            JsonValue::Str(s) => {
                let c = s.as_str();
                if str_eq(c, "CANCELLED") {
                    Ok(RefundStatus::Cancelled)
                } else if str_eq(c, "PENDING") {
                    Ok(RefundStatus::Pending)
                } else if str_eq(c, "COMPLETED") {
                    Ok(RefundStatus::Completed)
                } else if str_eq(c, "FAILED") {
                    Ok(RefundStatus::Failed)
                } else {
                    Err(DecodeError::UnknownToken(s.clone()))
                }
            },
            _ => Err(DecodeError::WrongType("string".to_owned())),
        }
    }

    proof fn lemma_round_trip(t: Self, u: Self) {
    }
}

/// The reason a refund is pending or failed.
#[derive(Debug, Clone, Copy, PartialEq, Eq)]
pub enum RefundStatusDetailsReason {
    /// The customer's account is funded through an eCheck that has not yet
    /// cleared.
    Echeck,
}

impl RefundStatusDetailsReason {
    /// The wire token of this value.
    pub open spec fn spec_token(self) -> Seq<char> {
        match self {
            RefundStatusDetailsReason::Echeck => "ECHECK"@,
        }
    }

    /// Whether `s` is one of the documented tokens.
    pub open spec fn spec_is_token(s: Seq<char>) -> bool {
        s == "ECHECK"@
    }
}

impl WireCodec for RefundStatusDetailsReason {
    open spec fn encoding(self) -> Jv {
        Jv::Str(self.spec_token())
    }

    open spec fn can_decode(v: Jv) -> bool {
        match v {
            Jv::Str(s) => RefundStatusDetailsReason::spec_is_token(s),
            _ => false,
        }
    }

    open spec fn decodes_to(v: Jv, t: Self) -> bool {
        v == Jv::Str(t.spec_token())
    }

    fn encode(&self) -> (r: JsonValue) {
        let tok = match self {
            RefundStatusDetailsReason::Echeck => "ECHECK",
        };
        JsonValue::Str(tok.to_owned())
    }

    fn decode(v: &JsonValue) -> (r: Result<Self, DecodeError>)
        ensures
            match r {
                Err(DecodeError::UnknownToken(s)) => v@ == Jv::Str(s@)
                    && !RefundStatusDetailsReason::spec_is_token(s@),
                Err(DecodeError::WrongType(_)) => !(v@ is Str),
                Err(DecodeError::MissingField(_)) => false,
                Ok(_) => true,
            },
    {
        match v {
            JsonValue::Str(s) => {
                let c = s.as_str();
                if str_eq(c, "ECHECK") {
                    Ok(RefundStatusDetailsReason::Echeck)
                } else {
                    Err(DecodeError::UnknownToken(s.clone()))
                }
            },
            _ => Err(DecodeError::WrongType("string".to_owned())),
        }
    }

    proof fn lemma_round_trip(t: Self, u: Self) {
    }
}

/// The details of a refund's status.
#[derive(Debug, Clone, Copy, PartialEq)]
pub struct RefundStatusDetails {
    /// The reason the refund is pending or failed.
    pub reason: RefundStatusDetailsReason,
}

impl RefundStatusDetails {
    /// The fields of this value's wire document, in emission order.
    pub open spec fn wire_fields(self) -> Seq<(Seq<char>, Jv)> {
        field_entry("reason"@, self.reason.encoding())
    }
}

impl WireCodec for RefundStatusDetails {
    open spec fn encoding(self) -> Jv {
        Jv::Object(self.wire_fields())
    }

    open spec fn can_decode(v: Jv) -> bool {
        match v {
            Jv::Object(fs) => {
                &&& req_ok::<RefundStatusDetailsReason>(fs, "reason"@)
            },
            _ => false,
        }
    }

    open spec fn decodes_to(v: Jv, t: Self) -> bool {
        match v {
            Jv::Object(fs) => {
                &&& req_rel::<RefundStatusDetailsReason>(fs, "reason"@, t.reason)
            },
            _ => false,
        }
    }

    fn encode(&self) -> (r: JsonValue) {
        let mut fs: Vec<(String, JsonValue)> = Vec::new();
        fs.push(("reason".to_owned(), self.reason.encode()));
        proof {
            crate::json::lemma_jv_of_fields(fs@);
            assert(jv_of_fields(fs@) =~= (*self).wire_fields());
        }
        JsonValue::Object(fs)
    }

    fn decode(v: &JsonValue) -> (r: Result<Self, DecodeError>) {
        match v {
            JsonValue::Object(fields) => {
                let reason = match get_req::<RefundStatusDetailsReason>(fields, "reason") {
                    Ok(x) => x,
                    Err(e) => return Err(e),
                };
                Ok(RefundStatusDetails { reason })
            },
            _ => Err(DecodeError::WrongType("object".to_owned())),
        }
    }

    proof fn lemma_round_trip(t: Self, u: Self) {
        reveal_strlit("reason");
        assert("reason"@.len() == 6);
        RefundStatusDetailsReason::lemma_round_trip(t.reason, u.reason);
        if Self::decodes_to(t.encoding(), u) {
            assert(u.wire_fields() =~= t.wire_fields());
        }
    }
}

/// An exchange rate.
#[derive(Debug, Clone, PartialEq)]
pub struct ExchangeRate {
    /// The source currency from which to convert an amount.
    pub source_currency: Currency,
    /// The target currency to which to convert an amount.
    pub target_currency: Currency,
    /// The target currency amount equivalent to one unit of the source
    /// currency, as decimal text.
    pub value: String,
}

impl ExchangeRate {
    /// The fields of this value's wire document, in emission order.
    pub open spec fn wire_fields(self) -> Seq<(Seq<char>, Jv)> {
        field_entry("source_currency"@, self.source_currency.encoding()) + field_entry("target_currency"@, self.target_currency.encoding()) + field_entry("value"@, self.value.encoding())
    }
}

impl WireCodec for ExchangeRate {
    open spec fn encoding(self) -> Jv {
        Jv::Object(self.wire_fields())
    }

    open spec fn can_decode(v: Jv) -> bool {
        match v {
            Jv::Object(fs) => {
                &&& req_ok::<Currency>(fs, "source_currency"@)
                &&& req_ok::<Currency>(fs, "target_currency"@)
                &&& req_ok::<String>(fs, "value"@)
            },
            _ => false,
        }
    }

    open spec fn decodes_to(v: Jv, t: Self) -> bool {
        match v {
            Jv::Object(fs) => {
                &&& req_rel::<Currency>(fs, "source_currency"@, t.source_currency)
                &&& req_rel::<Currency>(fs, "target_currency"@, t.target_currency)
                &&& req_rel::<String>(fs, "value"@, t.value)
            },
            _ => false,
        }
    }

    fn encode(&self) -> (r: JsonValue) {
        let mut fs: Vec<(String, JsonValue)> = Vec::new();
        fs.push(("source_currency".to_owned(), self.source_currency.encode()));
        fs.push(("target_currency".to_owned(), self.target_currency.encode()));
        fs.push(("value".to_owned(), self.value.encode()));
        proof {
            crate::json::lemma_jv_of_fields(fs@);
            assert(jv_of_fields(fs@) =~= (*self).wire_fields());
        }
        JsonValue::Object(fs)
    }

    fn decode(v: &JsonValue) -> (r: Result<Self, DecodeError>) {
        match v {
            JsonValue::Object(fields) => {
                let source_currency = match get_req::<Currency>(fields, "source_currency") {
                    Ok(x) => x,
                    Err(e) => return Err(e),
                };
                let target_currency = match get_req::<Currency>(fields, "target_currency") {
                    Ok(x) => x,
                    Err(e) => return Err(e),
                };
                let value = match get_req::<String>(fields, "value") {
                    Ok(x) => x,
                    Err(e) => return Err(e),
                };
                Ok(ExchangeRate { source_currency, target_currency, value })
            },
            _ => Err(DecodeError::WrongType("object".to_owned())),
        }
    }

    proof fn lemma_round_trip(t: Self, u: Self) {
        reveal_strlit("source_currency");
        reveal_strlit("target_currency");
        reveal_strlit("value");
        assert("source_currency"@.len() == 15);
        assert("target_currency"@.len() == 15);
        assert("value"@.len() == 5);
        assert("source_currency"@[0] == 's');
        assert("target_currency"@[0] == 't');
        Currency::lemma_round_trip(t.source_currency, u.source_currency);
        Currency::lemma_round_trip(t.target_currency, u.target_currency);
        if Self::decodes_to(t.encoding(), u) {
            assert(u.wire_fields() =~= t.wire_fields());
        }
    }
}

/// One breakdown entry for the net refund amount.
#[derive(Debug, Clone, PartialEq)]
pub struct NetAmountBreakdown {
    /// The converted payable amount.
    pub converted_amount: Money,
    /// The exchange rate that determined the debited amount.
    pub exchange_rate: ExchangeRate,
    /// The net amount debited from the merchant's PayPal account.
    pub payable_amount: Money,
}

impl NetAmountBreakdown {
    /// The fields of this value's wire document, in emission order.
    pub open spec fn wire_fields(self) -> Seq<(Seq<char>, Jv)> {
        field_entry("converted_amount"@, self.converted_amount.encoding()) + field_entry("exchange_rate"@, self.exchange_rate.encoding()) + field_entry("payable_amount"@, self.payable_amount.encoding())
    }
}

impl WireCodec for NetAmountBreakdown {
    open spec fn encoding(self) -> Jv {
        Jv::Object(self.wire_fields())
    }

    open spec fn can_decode(v: Jv) -> bool {
        match v {
            Jv::Object(fs) => {
                &&& req_ok::<Money>(fs, "converted_amount"@)
                &&& req_ok::<ExchangeRate>(fs, "exchange_rate"@)
                &&& req_ok::<Money>(fs, "payable_amount"@)
            },
            _ => false,
        }
    }

    open spec fn decodes_to(v: Jv, t: Self) -> bool {
        match v {
            Jv::Object(fs) => {
                &&& req_rel::<Money>(fs, "converted_amount"@, t.converted_amount)
                &&& req_rel::<ExchangeRate>(fs, "exchange_rate"@, t.exchange_rate)
                &&& req_rel::<Money>(fs, "payable_amount"@, t.payable_amount)
            },
            _ => false,
        }
    }

    fn encode(&self) -> (r: JsonValue) {
        let mut fs: Vec<(String, JsonValue)> = Vec::new();
        fs.push(("converted_amount".to_owned(), self.converted_amount.encode()));
        fs.push(("exchange_rate".to_owned(), self.exchange_rate.encode()));
        fs.push(("payable_amount".to_owned(), self.payable_amount.encode()));
        proof {
            crate::json::lemma_jv_of_fields(fs@);
            assert(jv_of_fields(fs@) =~= (*self).wire_fields());
        }
        JsonValue::Object(fs)
    }

    fn decode(v: &JsonValue) -> (r: Result<Self, DecodeError>) {
        match v {
            JsonValue::Object(fields) => {
                let converted_amount = match get_req::<Money>(fields, "converted_amount") {
                    Ok(x) => x,
                    Err(e) => return Err(e),
                };
                let exchange_rate = match get_req::<ExchangeRate>(fields, "exchange_rate") {
                    Ok(x) => x,
                    Err(e) => return Err(e),
                };
                let payable_amount = match get_req::<Money>(fields, "payable_amount") {
                    Ok(x) => x,
                    Err(e) => return Err(e),
                };
                Ok(NetAmountBreakdown { converted_amount, exchange_rate, payable_amount })
            },
            _ => Err(DecodeError::WrongType("object".to_owned())),
        }
    }

    proof fn lemma_round_trip(t: Self, u: Self) {
        reveal_strlit("converted_amount");
        reveal_strlit("exchange_rate");
        reveal_strlit("payable_amount");
        assert("converted_amount"@.len() == 16);
        assert("exchange_rate"@.len() == 13);
        assert("payable_amount"@.len() == 14);
        Money::lemma_round_trip(t.converted_amount, u.converted_amount);
        ExchangeRate::lemma_round_trip(t.exchange_rate, u.exchange_rate);
        Money::lemma_round_trip(t.payable_amount, u.payable_amount);
        if Self::decodes_to(t.encoding(), u) {
            assert(u.wire_fields() =~= t.wire_fields());
        }
    }
}

/// The breakdown of what the seller pays for a refund.
#[derive(Debug, Clone, PartialEq)]
pub struct SellerPayableBreakdown {
    /// Platform or partner fees for the refund.
    pub platform_fees: Option<Vec<PlatformFee>>,
    /// Breakdown values for the net amount, present when the refund currency
    /// differs from the currency the payee holds funds in.
    pub net_amount_breakdown: Option<Vec<NetAmountBreakdown>>,
    /// The amount the payee refunded to the payer.
    pub gross_amount: Option<Money>,
    /// The PayPal fee refunded to the payer, in the transaction currency.
    pub paypal_fee: Option<Money>,
    /// The PayPal fee refunded in the receivable currency, when it differs.
    pub paypal_fee_in_receivable_currency: Option<Money>,
    /// The net amount debited in the transaction currency.
    pub net_amount: Option<Money>,
    /// The net amount debited in the receivable currency, when it differs.
    pub net_amount_in_receivable_currency: Option<Money>,
    /// The total amount refunded from the original capture to date.
    pub total_refunded_amount: Money,
}

impl SellerPayableBreakdown {
    /// The fields of this value's wire document, in emission order.
    pub open spec fn wire_fields(self) -> Seq<(Seq<char>, Jv)> {
        opt_entry("platform_fees"@, self.platform_fees) + opt_entry("net_amount_breakdown"@, self.net_amount_breakdown) + opt_entry("gross_amount"@, self.gross_amount) + opt_entry("paypal_fee"@, self.paypal_fee) + opt_entry("paypal_fee_in_receivable_currency"@, self.paypal_fee_in_receivable_currency) + opt_entry("net_amount"@, self.net_amount) + opt_entry("net_amount_in_receivable_currency"@, self.net_amount_in_receivable_currency) + field_entry("total_refunded_amount"@, self.total_refunded_amount.encoding())
    }
}

impl WireCodec for SellerPayableBreakdown {
    open spec fn encoding(self) -> Jv {
        Jv::Object(self.wire_fields())
    }

    open spec fn can_decode(v: Jv) -> bool {
        match v {
            Jv::Object(fs) => {
                &&& opt_ok::<Vec<PlatformFee>>(fs, "platform_fees"@)
                &&& opt_ok::<Vec<NetAmountBreakdown>>(fs, "net_amount_breakdown"@)
                &&& opt_ok::<Money>(fs, "gross_amount"@)
                &&& opt_ok::<Money>(fs, "paypal_fee"@)
                &&& opt_ok::<Money>(fs, "paypal_fee_in_receivable_currency"@)
                &&& opt_ok::<Money>(fs, "net_amount"@)
                &&& opt_ok::<Money>(fs, "net_amount_in_receivable_currency"@)
                &&& req_ok::<Money>(fs, "total_refunded_amount"@)
            },
            _ => false,
        }
    }

    open spec fn decodes_to(v: Jv, t: Self) -> bool {
        match v {
            Jv::Object(fs) => {
                &&& opt_rel::<Vec<PlatformFee>>(fs, "platform_fees"@, t.platform_fees)
                &&& opt_rel::<Vec<NetAmountBreakdown>>(fs, "net_amount_breakdown"@, t.net_amount_breakdown)
                &&& opt_rel::<Money>(fs, "gross_amount"@, t.gross_amount)
                &&& opt_rel::<Money>(fs, "paypal_fee"@, t.paypal_fee)
                &&& opt_rel::<Money>(fs, "paypal_fee_in_receivable_currency"@, t.paypal_fee_in_receivable_currency)
                &&& opt_rel::<Money>(fs, "net_amount"@, t.net_amount)
                &&& opt_rel::<Money>(fs, "net_amount_in_receivable_currency"@, t.net_amount_in_receivable_currency)
                &&& req_rel::<Money>(fs, "total_refunded_amount"@, t.total_refunded_amount)
            },
            _ => false,
        }
    }

    fn encode(&self) -> (r: JsonValue) {
        let mut fs: Vec<(String, JsonValue)> = Vec::new();
        push_opt(&mut fs, "platform_fees", &self.platform_fees);
        push_opt(&mut fs, "net_amount_breakdown", &self.net_amount_breakdown);
        push_opt(&mut fs, "gross_amount", &self.gross_amount);
        push_opt(&mut fs, "paypal_fee", &self.paypal_fee);
        push_opt(&mut fs, "paypal_fee_in_receivable_currency", &self.paypal_fee_in_receivable_currency);
        push_opt(&mut fs, "net_amount", &self.net_amount);
        push_opt(&mut fs, "net_amount_in_receivable_currency", &self.net_amount_in_receivable_currency);
        push_req(&mut fs, "total_refunded_amount", &self.total_refunded_amount);
        proof {
            crate::json::lemma_concat_left_empty(opt_entry("platform_fees"@, (*self).platform_fees));
            assert(jv_of_fields(fs@) == (*self).wire_fields());
        }
        JsonValue::Object(fs)
    }

    fn decode(v: &JsonValue) -> (r: Result<Self, DecodeError>) {
        match v {
            JsonValue::Object(fields) => {
                let platform_fees = match get_opt::<Vec<PlatformFee>>(fields, "platform_fees") {
                    Ok(x) => x,
                    Err(e) => return Err(e),
                };
                let net_amount_breakdown = match get_opt::<Vec<NetAmountBreakdown>>(fields, "net_amount_breakdown") {
                    Ok(x) => x,
                    Err(e) => return Err(e),
                };
                let gross_amount = match get_opt::<Money>(fields, "gross_amount") {
                    Ok(x) => x,
                    Err(e) => return Err(e),
                };
                let paypal_fee = match get_opt::<Money>(fields, "paypal_fee") {
                    Ok(x) => x,
                    Err(e) => return Err(e),
                };
                let paypal_fee_in_receivable_currency = match get_opt::<Money>(fields, "paypal_fee_in_receivable_currency") {
                    Ok(x) => x,
                    Err(e) => return Err(e),
                };
                let net_amount = match get_opt::<Money>(fields, "net_amount") {
                    Ok(x) => x,
                    Err(e) => return Err(e),
                };
                let net_amount_in_receivable_currency = match get_opt::<Money>(fields, "net_amount_in_receivable_currency") {
                    Ok(x) => x,
                    Err(e) => return Err(e),
                };
                let total_refunded_amount = match get_req::<Money>(fields, "total_refunded_amount") {
                    Ok(x) => x,
                    Err(e) => return Err(e),
                };
                Ok(SellerPayableBreakdown { platform_fees, net_amount_breakdown, gross_amount, paypal_fee, paypal_fee_in_receivable_currency, net_amount, net_amount_in_receivable_currency, total_refunded_amount })
            },
            _ => Err(DecodeError::WrongType("object".to_owned())),
        }
    }

    #[verifier::rlimit(100)]
    proof fn lemma_round_trip(t: Self, u: Self) {
        reveal_strlit("platform_fees");
        reveal_strlit("net_amount_breakdown");
        reveal_strlit("gross_amount");
        reveal_strlit("paypal_fee");
        reveal_strlit("paypal_fee_in_receivable_currency");
        reveal_strlit("net_amount");
        reveal_strlit("net_amount_in_receivable_currency");
        reveal_strlit("total_refunded_amount");
        assert("platform_fees"@.len() == 13);
        assert("net_amount_breakdown"@.len() == 20);
        assert("gross_amount"@.len() == 12);
        assert("paypal_fee"@.len() == 10);
        assert("paypal_fee_in_receivable_currency"@.len() == 33);
        assert("net_amount"@.len() == 10);
        assert("net_amount_in_receivable_currency"@.len() == 33);
        assert("total_refunded_amount"@.len() == 21);
        assert("paypal_fee"@[0] == 'p');
        assert("net_amount"@[0] == 'n');
        assert("paypal_fee_in_receivable_currency"@[0] == 'p');
        assert("net_amount_in_receivable_currency"@[0] == 'n');
        if let Some(x) = t.platform_fees {
            <Vec<PlatformFee> as WireCodec>::lemma_round_trip(x, x);
        }
        if let Some(x) = t.net_amount_breakdown {
            <Vec<NetAmountBreakdown> as WireCodec>::lemma_round_trip(x, x);
        }
        if let Some(x) = t.gross_amount {
            Money::lemma_round_trip(x, x);
        }
        if let Some(x) = t.paypal_fee {
            Money::lemma_round_trip(x, x);
        }
        if let Some(x) = t.paypal_fee_in_receivable_currency {
            Money::lemma_round_trip(x, x);
        }
        if let Some(x) = t.net_amount {
            Money::lemma_round_trip(x, x);
        }
        if let Some(x) = t.net_amount_in_receivable_currency {
            Money::lemma_round_trip(x, x);
        }
        Money::lemma_round_trip(t.total_refunded_amount, u.total_refunded_amount);
        if Self::decodes_to(t.encoding(), u) {
            if let (Some(x), Some(y)) = (t.platform_fees, u.platform_fees) {
                <Vec<PlatformFee> as WireCodec>::lemma_round_trip(x, y);
            }
            if let (Some(x), Some(y)) = (t.net_amount_breakdown, u.net_amount_breakdown) {
                <Vec<NetAmountBreakdown> as WireCodec>::lemma_round_trip(x, y);
            }
            if let (Some(x), Some(y)) = (t.gross_amount, u.gross_amount) {
                Money::lemma_round_trip(x, y);
            }
            if let (Some(x), Some(y)) = (t.paypal_fee, u.paypal_fee) {
                Money::lemma_round_trip(x, y);
            }
            if let (Some(x), Some(y)) = (t.paypal_fee_in_receivable_currency, u.paypal_fee_in_receivable_currency) {
                Money::lemma_round_trip(x, y);
            }
            if let (Some(x), Some(y)) = (t.net_amount, u.net_amount) {
                Money::lemma_round_trip(x, y);
            }
            if let (Some(x), Some(y)) = (t.net_amount_in_receivable_currency, u.net_amount_in_receivable_currency) {
                Money::lemma_round_trip(x, y);
            }
            assert(u.wire_fields() =~= t.wire_fields());
        }
    }
}

/// A refund.
#[derive(Debug, Clone, PartialEq)]
pub struct Refund {
    /// The status of the refund.
    pub status: RefundStatus,
    /// The details of the refund's status.
    pub status_details: Option<RefundStatusDetails>,
    /// The PayPal-generated ID for the refund.
    pub id: String,
    /// The API caller-provided external invoice number for this order.
    pub invoice_id: Option<String>,
    /// The API caller-provided external ID.
    pub customer_id: Option<String>,
    /// The reference ID issued for the card transaction.
    pub acquirer_reference_number: Option<String>,
    /// The reason for the refund, visible to the payer.
    pub note_to_payer: Option<String>,
    /// The breakdown of the refund.
    pub seller_payable_breakdown: SellerPayableBreakdown,
    /// Related HATEOAS links.
    pub links: Vec<LinkDescription>,
    /// The amount the payee refunded to the payer.
    pub amount: Money,
    /// The details associated with the merchant for the transaction.
    pub payer: Option<Payer>,
    /// When the transaction occurred, as an ISO-8601 timestamp.
    pub create_time: Option<String>,
    /// When the transaction was last updated, as an ISO-8601 timestamp.
    pub update_time: Option<String>,
}

/// The comprehensive history of payments for a purchase unit.
#[derive(Debug, PartialEq)]
pub struct PaymentCollection {
    /// The authorized payments for the purchase unit: zero or more.
    pub authorizations: Vec<AuthorizationWithData>,
    /// The captured payments for the purchase unit: zero or more.
    pub captures: Vec<Capture>,
    /// The refunds for the purchase unit: zero or more.
    pub refunds: Vec<Refund>,
}

impl Refund {
    /// The fields of this value's wire document, in emission order.
    pub open spec fn wire_fields(self) -> Seq<(Seq<char>, Jv)> {
        field_entry("status"@, self.status.encoding()) + opt_entry("status_details"@, self.status_details) + field_entry("id"@, self.id.encoding()) + opt_entry("invoice_id"@, self.invoice_id) + opt_entry("customer_id"@, self.customer_id) + opt_entry("acquirer_reference_number"@, self.acquirer_reference_number) + opt_entry("note_to_payer"@, self.note_to_payer) + field_entry("seller_payable_breakdown"@, self.seller_payable_breakdown.encoding()) + field_entry("links"@, self.links.encoding()) + field_entry("amount"@, self.amount.encoding()) + opt_entry("payer"@, self.payer) + opt_entry("create_time"@, self.create_time) + opt_entry("update_time"@, self.update_time)
    }
}

impl WireCodec for Refund {
    open spec fn encoding(self) -> Jv {
        Jv::Object(self.wire_fields())
    }

    open spec fn can_decode(v: Jv) -> bool {
        match v {
            Jv::Object(fs) => {
                &&& req_ok::<RefundStatus>(fs, "status"@)
                &&& opt_ok::<RefundStatusDetails>(fs, "status_details"@)
                &&& req_ok::<String>(fs, "id"@)
                &&& opt_ok::<String>(fs, "invoice_id"@)
                &&& opt_ok::<String>(fs, "customer_id"@)
                &&& opt_ok::<String>(fs, "acquirer_reference_number"@)
                &&& opt_ok::<String>(fs, "note_to_payer"@)
                &&& req_ok::<SellerPayableBreakdown>(fs, "seller_payable_breakdown"@)
                &&& req_ok::<Vec<LinkDescription>>(fs, "links"@)
                &&& req_ok::<Money>(fs, "amount"@)
                &&& opt_ok::<Payer>(fs, "payer"@)
                &&& opt_ok::<String>(fs, "create_time"@)
                &&& opt_ok::<String>(fs, "update_time"@)
            },
            _ => false,
        }
    }

    open spec fn decodes_to(v: Jv, t: Self) -> bool {
        match v {
            Jv::Object(fs) => {
                &&& req_rel::<RefundStatus>(fs, "status"@, t.status)
                &&& opt_rel::<RefundStatusDetails>(fs, "status_details"@, t.status_details)
                &&& req_rel::<String>(fs, "id"@, t.id)
                &&& opt_rel::<String>(fs, "invoice_id"@, t.invoice_id)
                &&& opt_rel::<String>(fs, "customer_id"@, t.customer_id)
                &&& opt_rel::<String>(fs, "acquirer_reference_number"@, t.acquirer_reference_number)
                &&& opt_rel::<String>(fs, "note_to_payer"@, t.note_to_payer)
                &&& req_rel::<SellerPayableBreakdown>(fs, "seller_payable_breakdown"@, t.seller_payable_breakdown)
                &&& req_rel::<Vec<LinkDescription>>(fs, "links"@, t.links)
                &&& req_rel::<Money>(fs, "amount"@, t.amount)
                &&& opt_rel::<Payer>(fs, "payer"@, t.payer)
                &&& opt_rel::<String>(fs, "create_time"@, t.create_time)
                &&& opt_rel::<String>(fs, "update_time"@, t.update_time)
            },
            _ => false,
        }
    }

    fn encode(&self) -> (r: JsonValue) {
        let mut fs: Vec<(String, JsonValue)> = Vec::new();
        push_req(&mut fs, "status", &self.status);
        push_opt(&mut fs, "status_details", &self.status_details);
        push_req(&mut fs, "id", &self.id);
        push_opt(&mut fs, "invoice_id", &self.invoice_id);
        push_opt(&mut fs, "customer_id", &self.customer_id);
        push_opt(&mut fs, "acquirer_reference_number", &self.acquirer_reference_number);
        push_opt(&mut fs, "note_to_payer", &self.note_to_payer);
        push_req(&mut fs, "seller_payable_breakdown", &self.seller_payable_breakdown);
        push_req(&mut fs, "links", &self.links);
        push_req(&mut fs, "amount", &self.amount);
        push_opt(&mut fs, "payer", &self.payer);
        push_opt(&mut fs, "create_time", &self.create_time);
        push_opt(&mut fs, "update_time", &self.update_time);
        proof {
            crate::json::lemma_concat_left_empty(field_entry("status"@, (*self).status.encoding()));
            assert(jv_of_fields(fs@) == (*self).wire_fields());
        }
        JsonValue::Object(fs)
    }

    fn decode(v: &JsonValue) -> (r: Result<Self, DecodeError>) {
        match v {
            JsonValue::Object(fields) => {
                let status = match get_req::<RefundStatus>(fields, "status") {
                    Ok(x) => x,
                    Err(e) => return Err(e),
                };
                let status_details = match get_opt::<RefundStatusDetails>(fields, "status_details") {
                    Ok(x) => x,
                    Err(e) => return Err(e),
                };
                let id = match get_req::<String>(fields, "id") {
                    Ok(x) => x,
                    Err(e) => return Err(e),
                };
                let invoice_id = match get_opt::<String>(fields, "invoice_id") {
                    Ok(x) => x,
                    Err(e) => return Err(e),
                };
                let customer_id = match get_opt::<String>(fields, "customer_id") {
                    Ok(x) => x,
                    Err(e) => return Err(e),
                };
                let acquirer_reference_number = match get_opt::<String>(fields, "acquirer_reference_number") {
                    Ok(x) => x,
                    Err(e) => return Err(e),
                };
                let note_to_payer = match get_opt::<String>(fields, "note_to_payer") {
                    Ok(x) => x,
                    Err(e) => return Err(e),
                };
                let seller_payable_breakdown = match get_req::<SellerPayableBreakdown>(fields, "seller_payable_breakdown") {
                    Ok(x) => x,
                    Err(e) => return Err(e),
                };
                let links = match get_req::<Vec<LinkDescription>>(fields, "links") {
                    Ok(x) => x,
                    Err(e) => return Err(e),
                };
                let amount = match get_req::<Money>(fields, "amount") {
                    Ok(x) => x,
                    Err(e) => return Err(e),
                };
                let payer = match get_opt::<Payer>(fields, "payer") {
                    Ok(x) => x,
                    Err(e) => return Err(e),
                };
                let create_time = match get_opt::<String>(fields, "create_time") {
                    Ok(x) => x,
                    Err(e) => return Err(e),
                };
                let update_time = match get_opt::<String>(fields, "update_time") {
                    Ok(x) => x,
                    Err(e) => return Err(e),
                };
                Ok(Refund { status, status_details, id, invoice_id, customer_id, acquirer_reference_number, note_to_payer, seller_payable_breakdown, links, amount, payer, create_time, update_time })
            },
            _ => Err(DecodeError::WrongType("object".to_owned())),
        }
    }

    #[verifier::rlimit(100)]
    proof fn lemma_round_trip(t: Self, u: Self) {
        reveal_strlit("status");
        reveal_strlit("status_details");
        reveal_strlit("id");
        reveal_strlit("invoice_id");
        reveal_strlit("customer_id");
        reveal_strlit("acquirer_reference_number");
        reveal_strlit("note_to_payer");
        reveal_strlit("seller_payable_breakdown");
        reveal_strlit("links");
        reveal_strlit("amount");
        reveal_strlit("payer");
        reveal_strlit("create_time");
        reveal_strlit("update_time");
        assert("status"@.len() == 6);
        assert("status_details"@.len() == 14);
        assert("id"@.len() == 2);
        assert("invoice_id"@.len() == 10);
        assert("customer_id"@.len() == 11);
        assert("acquirer_reference_number"@.len() == 25);
        assert("note_to_payer"@.len() == 13);
        assert("seller_payable_breakdown"@.len() == 24);
        assert("links"@.len() == 5);
        assert("amount"@.len() == 6);
        assert("payer"@.len() == 5);
        assert("create_time"@.len() == 11);
        assert("update_time"@.len() == 11);
        assert("status"@[0] == 's');
        assert("amount"@[0] == 'a');
        assert("customer_id"@[1] == 'u');
        assert("create_time"@[1] == 'r');
        assert("customer_id"@[0] == 'c');
        assert("update_time"@[0] == 'u');
        assert("create_time"@[0] == 'c');
        assert("links"@[0] == 'l');
        assert("payer"@[0] == 'p');
        RefundStatus::lemma_round_trip(t.status, u.status);
        if let Some(x) = t.status_details {
            RefundStatusDetails::lemma_round_trip(x, x);
        }
        SellerPayableBreakdown::lemma_round_trip(t.seller_payable_breakdown, u.seller_payable_breakdown);
        <Vec<LinkDescription> as WireCodec>::lemma_round_trip(t.links, u.links);
        Money::lemma_round_trip(t.amount, u.amount);
        if let Some(x) = t.payer {
            Payer::lemma_round_trip(x, x);
        }
        if Self::decodes_to(t.encoding(), u) {
            if let (Some(x), Some(y)) = (t.status_details, u.status_details) {
                RefundStatusDetails::lemma_round_trip(x, y);
            }
            if let (Some(x), Some(y)) = (t.payer, u.payer) {
                Payer::lemma_round_trip(x, y);
            }
            assert(field_entry("status"@, u.status.encoding()) == field_entry("status"@, t.status.encoding()));
            assert(opt_entry("status_details"@, u.status_details) == opt_entry("status_details"@, t.status_details));
            assert(field_entry("id"@, u.id.encoding()) == field_entry("id"@, t.id.encoding()));
            assert(opt_entry("invoice_id"@, u.invoice_id) == opt_entry("invoice_id"@, t.invoice_id));
            assert(opt_entry("customer_id"@, u.customer_id) == opt_entry("customer_id"@, t.customer_id));
            assert(opt_entry("acquirer_reference_number"@, u.acquirer_reference_number) == opt_entry("acquirer_reference_number"@, t.acquirer_reference_number));
            assert(opt_entry("note_to_payer"@, u.note_to_payer) == opt_entry("note_to_payer"@, t.note_to_payer));
            assert(field_entry("seller_payable_breakdown"@, u.seller_payable_breakdown.encoding()) == field_entry("seller_payable_breakdown"@, t.seller_payable_breakdown.encoding()));
            assert(field_entry("links"@, u.links.encoding()) == field_entry("links"@, t.links.encoding()));
            assert(field_entry("amount"@, u.amount.encoding()) == field_entry("amount"@, t.amount.encoding()));
            assert(opt_entry("payer"@, u.payer) == opt_entry("payer"@, t.payer));
            assert(opt_entry("create_time"@, u.create_time) == opt_entry("create_time"@, t.create_time));
            assert(opt_entry("update_time"@, u.update_time) == opt_entry("update_time"@, t.update_time));
            assert(u.wire_fields() == t.wire_fields());
        }
    }
}

impl PaymentCollection {
    /// The fields of this value's wire document, in emission order.
    pub open spec fn wire_fields(self) -> Seq<(Seq<char>, Jv)> {
        field_entry("authorizations"@, self.authorizations.encoding()) + field_entry("captures"@, self.captures.encoding()) + field_entry("refunds"@, self.refunds.encoding())
    }
}

impl WireCodec for PaymentCollection {
    open spec fn encoding(self) -> Jv {
        Jv::Object(self.wire_fields())
    }

    open spec fn can_decode(v: Jv) -> bool {
        match v {
            Jv::Object(fs) => {
                &&& req_ok::<Vec<AuthorizationWithData>>(fs, "authorizations"@)
                &&& req_ok::<Vec<Capture>>(fs, "captures"@)
                &&& req_ok::<Vec<Refund>>(fs, "refunds"@)
            },
            _ => false,
        }
    }

    open spec fn decodes_to(v: Jv, t: Self) -> bool {
        match v {
            Jv::Object(fs) => {
                &&& req_rel::<Vec<AuthorizationWithData>>(fs, "authorizations"@, t.authorizations)
                &&& req_rel::<Vec<Capture>>(fs, "captures"@, t.captures)
                &&& req_rel::<Vec<Refund>>(fs, "refunds"@, t.refunds)
            },
            _ => false,
        }
    }

    fn encode(&self) -> (r: JsonValue) {
        let mut fs: Vec<(String, JsonValue)> = Vec::new();
        push_req(&mut fs, "authorizations", &self.authorizations);
        push_req(&mut fs, "captures", &self.captures);
        push_req(&mut fs, "refunds", &self.refunds);
        proof {
            crate::json::lemma_concat_left_empty(field_entry("authorizations"@, (*self).authorizations.encoding()));
            assert(jv_of_fields(fs@) == (*self).wire_fields());
        }
        JsonValue::Object(fs)
    }

    fn decode(v: &JsonValue) -> (r: Result<Self, DecodeError>) {
        match v {
            JsonValue::Object(fields) => {
                let authorizations = match get_req::<Vec<AuthorizationWithData>>(fields, "authorizations") {
                    Ok(x) => x,
                    Err(e) => return Err(e),
                };
                let captures = match get_req::<Vec<Capture>>(fields, "captures") {
                    Ok(x) => x,
                    Err(e) => return Err(e),
                };
                let refunds = match get_req::<Vec<Refund>>(fields, "refunds") {
                    Ok(x) => x,
                    Err(e) => return Err(e),
                };
                Ok(PaymentCollection { authorizations, captures, refunds })
            },
            _ => Err(DecodeError::WrongType("object".to_owned())),
        }
    }

    proof fn lemma_round_trip(t: Self, u: Self) {
        reveal_strlit("authorizations");
        reveal_strlit("captures");
        reveal_strlit("refunds");
        assert("authorizations"@.len() == 14);
        assert("captures"@.len() == 8);
        assert("refunds"@.len() == 7);
        <Vec<AuthorizationWithData> as WireCodec>::lemma_round_trip(t.authorizations, u.authorizations);
        <Vec<Capture> as WireCodec>::lemma_round_trip(t.captures, u.captures);
        <Vec<Refund> as WireCodec>::lemma_round_trip(t.refunds, u.refunds);
        if Self::decodes_to(t.encoding(), u) {
            assert(u.wire_fields() =~= t.wire_fields());
        }
    }
}

/// Profile information of the sender or receiver.
#[derive(Debug, Clone, PartialEq)]
pub struct SupplementaryCustomer {
    /// The consumer's IP address, in IPv4 or IPv6 format.
    pub ip_address: Option<String>,
}

impl SupplementaryCustomer {
    /// The fields of this value's wire document, in emission order.
    pub open spec fn wire_fields(self) -> Seq<(Seq<char>, Jv)> {
        opt_entry("ip_address"@, self.ip_address)
    }
}

impl WireCodec for SupplementaryCustomer {
    open spec fn encoding(self) -> Jv {
        Jv::Object(self.wire_fields())
    }

    open spec fn can_decode(v: Jv) -> bool {
        match v {
            Jv::Object(fs) => {
                &&& opt_ok::<String>(fs, "ip_address"@)
            },
            _ => false,
        }
    }

    open spec fn decodes_to(v: Jv, t: Self) -> bool {
        match v {
            Jv::Object(fs) => {
                &&& opt_rel::<String>(fs, "ip_address"@, t.ip_address)
            },
            _ => false,
        }
    }

    fn encode(&self) -> (r: JsonValue) {
        let mut fs: Vec<(String, JsonValue)> = Vec::new();
        if let Some(x) = &self.ip_address {
            fs.push(("ip_address".to_owned(), x.encode()));
        }
        proof {
            crate::json::lemma_jv_of_fields(fs@);
            assert(jv_of_fields(fs@) =~= (*self).wire_fields());
        }
        JsonValue::Object(fs)
    }

    fn decode(v: &JsonValue) -> (r: Result<Self, DecodeError>) {
        match v {
            JsonValue::Object(fields) => {
                let ip_address = match get_opt::<String>(fields, "ip_address") {
                    Ok(x) => x,
                    Err(e) => return Err(e),
                };
                Ok(SupplementaryCustomer { ip_address })
            },
            _ => Err(DecodeError::WrongType("object".to_owned())),
        }
    }

    proof fn lemma_round_trip(t: Self, u: Self) {
        reveal_strlit("ip_address");
        assert("ip_address"@.len() == 10);
        if Self::decodes_to(t.encoding(), u) {
            assert(u.wire_fields() =~= t.wire_fields());
        }
    }
}

/// Additional customer parameters for risk assessment.
#[derive(Debug, Clone, PartialEq)]
pub struct SupplementaryRisk {
    /// Profile information of the sender or receiver.
    pub customer: Option<SupplementaryCustomer>,
}

impl SupplementaryRisk {
    /// The fields of this value's wire document, in emission order.
    pub open spec fn wire_fields(self) -> Seq<(Seq<char>, Jv)> {
        opt_entry("customer"@, self.customer)
    }
}

impl WireCodec for SupplementaryRisk {
    open spec fn encoding(self) -> Jv {
        Jv::Object(self.wire_fields())
    }

    open spec fn can_decode(v: Jv) -> bool {
        match v {
            Jv::Object(fs) => {
                &&& opt_ok::<SupplementaryCustomer>(fs, "customer"@)
            },
            _ => false,
        }
    }

    open spec fn decodes_to(v: Jv, t: Self) -> bool {
        match v {
            Jv::Object(fs) => {
                &&& opt_rel::<SupplementaryCustomer>(fs, "customer"@, t.customer)
            },
            _ => false,
        }
    }

    fn encode(&self) -> (r: JsonValue) {
        let mut fs: Vec<(String, JsonValue)> = Vec::new();
        if let Some(x) = &self.customer {
            fs.push(("customer".to_owned(), x.encode()));
        }
        proof {
            crate::json::lemma_jv_of_fields(fs@);
            assert(jv_of_fields(fs@) =~= (*self).wire_fields());
        }
        JsonValue::Object(fs)
    }

    fn decode(v: &JsonValue) -> (r: Result<Self, DecodeError>) {
        match v {
            JsonValue::Object(fields) => {
                let customer = match get_opt::<SupplementaryCustomer>(fields, "customer") {
                    Ok(x) => x,
                    Err(e) => return Err(e),
                };
                Ok(SupplementaryRisk { customer })
            },
            _ => Err(DecodeError::WrongType("object".to_owned())),
        }
    }

    proof fn lemma_round_trip(t: Self, u: Self) {
        reveal_strlit("customer");
        assert("customer"@.len() == 8);
        if let Some(x) = t.customer {
            SupplementaryCustomer::lemma_round_trip(x, x);
        }
        if Self::decodes_to(t.encoding(), u) {
            if let (Some(x), Some(y)) = (t.customer, u.customer) {
                SupplementaryCustomer::lemma_round_trip(x, y);
            }
            assert(u.wire_fields() =~= t.wire_fields());
        }
    }
}

/// Supplementary data about a payment.
#[derive(Debug, PartialEq)]
pub struct SupplementaryData {
    /// The level 2 card processing data collection, carried as an opaque
    /// JSON document.
    pub level_2: Option<JsonValue>,
    /// The level 3 card processing data collection, carried as an opaque
    /// JSON document.
    pub level_3: Option<JsonValue>,
    /// Additional customer parameters for risk assessment.
    pub risk: Option<SupplementaryRisk>,
}

impl SupplementaryData {
    /// The fields of this value's wire document, in emission order.
    pub open spec fn wire_fields(self) -> Seq<(Seq<char>, Jv)> {
        opt_entry("level_2"@, self.level_2) + opt_entry("level_3"@, self.level_3) + opt_entry("risk"@, self.risk)
    }
}

impl WireCodec for SupplementaryData {
    open spec fn encoding(self) -> Jv {
        Jv::Object(self.wire_fields())
    }

    open spec fn can_decode(v: Jv) -> bool {
        match v {
            Jv::Object(fs) => {
                &&& opt_ok::<JsonValue>(fs, "level_2"@)
                &&& opt_ok::<JsonValue>(fs, "level_3"@)
                &&& opt_ok::<SupplementaryRisk>(fs, "risk"@)
            },
            _ => false,
        }
    }

    open spec fn decodes_to(v: Jv, t: Self) -> bool {
        match v {
            Jv::Object(fs) => {
                &&& opt_rel::<JsonValue>(fs, "level_2"@, t.level_2)
                &&& opt_rel::<JsonValue>(fs, "level_3"@, t.level_3)
                &&& opt_rel::<SupplementaryRisk>(fs, "risk"@, t.risk)
            },
            _ => false,
        }
    }

    fn encode(&self) -> (r: JsonValue) {
        let mut fs: Vec<(String, JsonValue)> = Vec::new();
        push_opt(&mut fs, "level_2", &self.level_2);
        push_opt(&mut fs, "level_3", &self.level_3);
        push_opt(&mut fs, "risk", &self.risk);
        proof {
            crate::json::lemma_concat_left_empty(opt_entry("level_2"@, (*self).level_2));
            assert(jv_of_fields(fs@) == (*self).wire_fields());
        }
        JsonValue::Object(fs)
    }

    fn decode(v: &JsonValue) -> (r: Result<Self, DecodeError>) {
        match v {
            JsonValue::Object(fields) => {
                let level_2 = match get_opt::<JsonValue>(fields, "level_2") {
                    Ok(x) => x,
                    Err(e) => return Err(e),
                };
                let level_3 = match get_opt::<JsonValue>(fields, "level_3") {
                    Ok(x) => x,
                    Err(e) => return Err(e),
                };
                let risk = match get_opt::<SupplementaryRisk>(fields, "risk") {
                    Ok(x) => x,
                    Err(e) => return Err(e),
                };
                Ok(SupplementaryData { level_2, level_3, risk })
            },
            _ => Err(DecodeError::WrongType("object".to_owned())),
        }
    }

    proof fn lemma_round_trip(t: Self, u: Self) {
        reveal_strlit("level_2");
        reveal_strlit("level_3");
        reveal_strlit("risk");
        assert("level_2"@.len() == 7);
        assert("level_3"@.len() == 7);
        assert("risk"@.len() == 4);
        assert("level_2"@[6] == '2');
        assert("level_3"@[6] == '3');
        if let Some(x) = t.level_2 {
            JsonValue::lemma_round_trip(x, x);
        }
        if let Some(x) = t.level_3 {
            JsonValue::lemma_round_trip(x, x);
        }
        if let Some(x) = t.risk {
            SupplementaryRisk::lemma_round_trip(x, x);
        }
        if Self::decodes_to(t.encoding(), u) {
            if let (Some(x), Some(y)) = (t.level_2, u.level_2) {
                JsonValue::lemma_round_trip(x, y);
            }
            if let (Some(x), Some(y)) = (t.level_3, u.level_3) {
                JsonValue::lemma_round_trip(x, y);
            }
            if let (Some(x), Some(y)) = (t.risk, u.risk) {
                SupplementaryRisk::lemma_round_trip(x, y);
            }
            assert(u.wire_fields() =~= t.wire_fields());
        }
    }
}

/// Either a full or partial order that the payer intends to purchase from
/// the payee: one contract segment within an order.
#[derive(Debug, PartialEq)]
pub struct PurchaseUnit {
    /// The API caller-provided external ID for the purchase unit.
    pub reference_id: Option<String>,
    /// The purchase description.
    pub description: Option<String>,
    /// The API caller-provided external ID, not visible to the payer.
    pub custom_id: Option<String>,
    /// The API caller-provided external invoice number for this order.
    pub invoice_id: Option<String>,
    /// The PayPal-generated ID for the purchase unit.
    pub id: Option<String>,
    /// The dynamic text used to construct the statement descriptor that
    /// appears on a payer's card statement.
    pub soft_descriptor: Option<String>,
    /// The items that the customer purchases from the merchant.
    pub items: Option<Vec<Item>>,
    /// The total order amount, with an optional breakdown.
    pub amount: Amount,
    /// The merchant who receives payment for this transaction.
    pub payee: Option<Payee>,
    /// Any additional payment instructions.
    pub payment_instruction: Option<PaymentInstruction>,
    /// The name and address of the person to whom to ship the items.
    pub shipping: Option<ShippingDetail>,
    /// The comprehensive history of payments for the purchase unit.
    pub payments: Option<PaymentCollection>,
}

impl PurchaseUnit {
    /// Creates a new purchase unit with the required properties: everything
    /// but the amount starts out absent.
    pub fn new(amount: Amount) -> (r: Self)
        ensures
            r.amount == amount,
            r.reference_id is None,
            r.description is None,
            r.custom_id is None,
            r.invoice_id is None,
            r.id is None,
            r.soft_descriptor is None,
            r.items is None,
            r.payee is None,
            r.payment_instruction is None,
            r.shipping is None,
            r.payments is None,
    {
        PurchaseUnit {
            reference_id: None,
            description: None,
            custom_id: None,
            invoice_id: None,
            id: None,
            soft_descriptor: None,
            items: None,
            amount,
            payee: None,
            payment_instruction: None,
            shipping: None,
            payments: None,
        }
    }
}

impl PurchaseUnit {
    /// The fields of this value's wire document, in emission order.
    pub open spec fn wire_fields(self) -> Seq<(Seq<char>, Jv)> {
        opt_entry("reference_id"@, self.reference_id) + opt_entry("description"@, self.description) + opt_entry("custom_id"@, self.custom_id) + opt_entry("invoice_id"@, self.invoice_id) + opt_entry("id"@, self.id) + opt_entry("soft_descriptor"@, self.soft_descriptor) + opt_entry("items"@, self.items) + field_entry("amount"@, self.amount.encoding()) + opt_entry("payee"@, self.payee) + opt_entry("payment_instruction"@, self.payment_instruction) + opt_entry("shipping"@, self.shipping) + opt_entry("payments"@, self.payments)
    }

    /// Where the `reference_id` field stands in the wire document.
    proof fn lemma_lookup_reference_id(t: Self)
        ensures
            lookup(t.wire_fields(), "reference_id"@) == (match t.reference_id {
                Some(x) => Some(x.encoding()),
                None => None::<Jv>,
            }),
    {
        reveal_strlit("reference_id");
        reveal_strlit("description");
        reveal_strlit("custom_id");
        reveal_strlit("invoice_id");
        reveal_strlit("id");
        reveal_strlit("soft_descriptor");
        reveal_strlit("items");
        reveal_strlit("amount");
        reveal_strlit("payee");
        reveal_strlit("payment_instruction");
        reveal_strlit("shipping");
        reveal_strlit("payments");
        assert("reference_id"@.len() == 12);
        assert("description"@.len() == 11);
        assert("custom_id"@.len() == 9);
        assert("invoice_id"@.len() == 10);
        assert("id"@.len() == 2);
        assert("soft_descriptor"@.len() == 15);
        assert("items"@.len() == 5);
        assert("amount"@.len() == 6);
        assert("payee"@.len() == 5);
        assert("payment_instruction"@.len() == 19);
        assert("shipping"@.len() == 8);
        assert("payments"@.len() == 8);
        assert("items"@[0] == 'i');
        assert("payee"@[0] == 'p');
        assert("shipping"@[0] == 's');
        assert("payments"@[0] == 'p');
    }

    /// Where the `description` field stands in the wire document.
    proof fn lemma_lookup_description(t: Self)
        ensures
            lookup(t.wire_fields(), "description"@) == (match t.description {
                Some(x) => Some(x.encoding()),
                None => None::<Jv>,
            }),
    {
        reveal_strlit("reference_id");
        reveal_strlit("description");
        reveal_strlit("custom_id");
        reveal_strlit("invoice_id");
        reveal_strlit("id");
        reveal_strlit("soft_descriptor");
        reveal_strlit("items");
        reveal_strlit("amount");
        reveal_strlit("payee");
        reveal_strlit("payment_instruction");
        reveal_strlit("shipping");
        reveal_strlit("payments");
        assert("reference_id"@.len() == 12);
        assert("description"@.len() == 11);
        assert("custom_id"@.len() == 9);
        assert("invoice_id"@.len() == 10);
        assert("id"@.len() == 2);
        assert("soft_descriptor"@.len() == 15);
        assert("items"@.len() == 5);
        assert("amount"@.len() == 6);
        assert("payee"@.len() == 5);
        assert("payment_instruction"@.len() == 19);
        assert("shipping"@.len() == 8);
        assert("payments"@.len() == 8);
        assert("items"@[0] == 'i');
        assert("payee"@[0] == 'p');
        assert("shipping"@[0] == 's');
        assert("payments"@[0] == 'p');
    }

    /// Where the `custom_id` field stands in the wire document.
    proof fn lemma_lookup_custom_id(t: Self)
        ensures
            lookup(t.wire_fields(), "custom_id"@) == (match t.custom_id {
                Some(x) => Some(x.encoding()),
                None => None::<Jv>,
            }),
    {
        reveal_strlit("reference_id");
        reveal_strlit("description");
        reveal_strlit("custom_id");
        reveal_strlit("invoice_id");
        reveal_strlit("id");
        reveal_strlit("soft_descriptor");
        reveal_strlit("items");
        reveal_strlit("amount");
        reveal_strlit("payee");
        reveal_strlit("payment_instruction");
        reveal_strlit("shipping");
        reveal_strlit("payments");
        assert("reference_id"@.len() == 12);
        assert("description"@.len() == 11);
        assert("custom_id"@.len() == 9);
        assert("invoice_id"@.len() == 10);
        assert("id"@.len() == 2);
        assert("soft_descriptor"@.len() == 15);
        assert("items"@.len() == 5);
        assert("amount"@.len() == 6);
        assert("payee"@.len() == 5);
        assert("payment_instruction"@.len() == 19);
        assert("shipping"@.len() == 8);
        assert("payments"@.len() == 8);
        assert("items"@[0] == 'i');
        assert("payee"@[0] == 'p');
        assert("shipping"@[0] == 's');
        assert("payments"@[0] == 'p');
    }

    /// Where the `invoice_id` field stands in the wire document.
    proof fn lemma_lookup_invoice_id(t: Self)
        ensures
            lookup(t.wire_fields(), "invoice_id"@) == (match t.invoice_id {
                Some(x) => Some(x.encoding()),
                None => None::<Jv>,
            }),
    {
        reveal_strlit("reference_id");
        reveal_strlit("description");
        reveal_strlit("custom_id");
        reveal_strlit("invoice_id");
        reveal_strlit("id");
        reveal_strlit("soft_descriptor");
        reveal_strlit("items");
        reveal_strlit("amount");
        reveal_strlit("payee");
        reveal_strlit("payment_instruction");
        reveal_strlit("shipping");
        reveal_strlit("payments");
        assert("reference_id"@.len() == 12);
        assert("description"@.len() == 11);
        assert("custom_id"@.len() == 9);
        assert("invoice_id"@.len() == 10);
        assert("id"@.len() == 2);
        assert("soft_descriptor"@.len() == 15);
        assert("items"@.len() == 5);
        assert("amount"@.len() == 6);
        assert("payee"@.len() == 5);
        assert("payment_instruction"@.len() == 19);
        assert("shipping"@.len() == 8);
        assert("payments"@.len() == 8);
        assert("items"@[0] == 'i');
        assert("payee"@[0] == 'p');
        assert("shipping"@[0] == 's');
        assert("payments"@[0] == 'p');
    }

    /// Where the `id` field stands in the wire document.
    proof fn lemma_lookup_id(t: Self)
        ensures
            lookup(t.wire_fields(), "id"@) == (match t.id {
                Some(x) => Some(x.encoding()),
                None => None::<Jv>,
            }),
    {
        reveal_strlit("reference_id");
        reveal_strlit("description");
        reveal_strlit("custom_id");
        reveal_strlit("invoice_id");
        reveal_strlit("id");
        reveal_strlit("soft_descriptor");
        reveal_strlit("items");
        reveal_strlit("amount");
        reveal_strlit("payee");
        reveal_strlit("payment_instruction");
        reveal_strlit("shipping");
        reveal_strlit("payments");
        assert("reference_id"@.len() == 12);
        assert("description"@.len() == 11);
        assert("custom_id"@.len() == 9);
        assert("invoice_id"@.len() == 10);
        assert("id"@.len() == 2);
        assert("soft_descriptor"@.len() == 15);
        assert("items"@.len() == 5);
        assert("amount"@.len() == 6);
        assert("payee"@.len() == 5);
        assert("payment_instruction"@.len() == 19);
        assert("shipping"@.len() == 8);
        assert("payments"@.len() == 8);
        assert("items"@[0] == 'i');
        assert("payee"@[0] == 'p');
        assert("shipping"@[0] == 's');
        assert("payments"@[0] == 'p');
    }

    /// Where the `soft_descriptor` field stands in the wire document.
    proof fn lemma_lookup_soft_descriptor(t: Self)
        ensures
            lookup(t.wire_fields(), "soft_descriptor"@) == (match t.soft_descriptor {
                Some(x) => Some(x.encoding()),
                None => None::<Jv>,
            }),
    {
        reveal_strlit("reference_id");
        reveal_strlit("description");
        reveal_strlit("custom_id");
        reveal_strlit("invoice_id");
        reveal_strlit("id");
        reveal_strlit("soft_descriptor");
        reveal_strlit("items");
        reveal_strlit("amount");
        reveal_strlit("payee");
        reveal_strlit("payment_instruction");
        reveal_strlit("shipping");
        reveal_strlit("payments");
        assert("reference_id"@.len() == 12);
        assert("description"@.len() == 11);
        assert("custom_id"@.len() == 9);
        assert("invoice_id"@.len() == 10);
        assert("id"@.len() == 2);
        assert("soft_descriptor"@.len() == 15);
        assert("items"@.len() == 5);
        assert("amount"@.len() == 6);
        assert("payee"@.len() == 5);
        assert("payment_instruction"@.len() == 19);
        assert("shipping"@.len() == 8);
        assert("payments"@.len() == 8);
        assert("items"@[0] == 'i');
        assert("payee"@[0] == 'p');
        assert("shipping"@[0] == 's');
        assert("payments"@[0] == 'p');
    }

    /// Where the `items` field stands in the wire document.
    proof fn lemma_lookup_items(t: Self)
        ensures
            lookup(t.wire_fields(), "items"@) == (match t.items {
                Some(x) => Some(x.encoding()),
                None => None::<Jv>,
            }),
    {
        reveal_strlit("reference_id");
        reveal_strlit("description");
        reveal_strlit("custom_id");
        reveal_strlit("invoice_id");
        reveal_strlit("id");
        reveal_strlit("soft_descriptor");
        reveal_strlit("items");
        reveal_strlit("amount");
        reveal_strlit("payee");
        reveal_strlit("payment_instruction");
        reveal_strlit("shipping");
        reveal_strlit("payments");
        assert("reference_id"@.len() == 12);
        assert("description"@.len() == 11);
        assert("custom_id"@.len() == 9);
        assert("invoice_id"@.len() == 10);
        assert("id"@.len() == 2);
        assert("soft_descriptor"@.len() == 15);
        assert("items"@.len() == 5);
        assert("amount"@.len() == 6);
        assert("payee"@.len() == 5);
        assert("payment_instruction"@.len() == 19);
        assert("shipping"@.len() == 8);
        assert("payments"@.len() == 8);
        assert("items"@[0] == 'i');
        assert("payee"@[0] == 'p');
        assert("shipping"@[0] == 's');
        assert("payments"@[0] == 'p');
    }

    /// Where the `amount` field stands in the wire document.
    proof fn lemma_lookup_amount(t: Self)
        ensures
            lookup(t.wire_fields(), "amount"@) == Some(t.amount.encoding()),
    {
        reveal_strlit("reference_id");
        reveal_strlit("description");
        reveal_strlit("custom_id");
        reveal_strlit("invoice_id");
        reveal_strlit("id");
        reveal_strlit("soft_descriptor");
        reveal_strlit("items");
        reveal_strlit("amount");
        reveal_strlit("payee");
        reveal_strlit("payment_instruction");
        reveal_strlit("shipping");
        reveal_strlit("payments");
        assert("reference_id"@.len() == 12);
        assert("description"@.len() == 11);
        assert("custom_id"@.len() == 9);
        assert("invoice_id"@.len() == 10);
        assert("id"@.len() == 2);
        assert("soft_descriptor"@.len() == 15);
        assert("items"@.len() == 5);
        assert("amount"@.len() == 6);
        assert("payee"@.len() == 5);
        assert("payment_instruction"@.len() == 19);
        assert("shipping"@.len() == 8);
        assert("payments"@.len() == 8);
        assert("items"@[0] == 'i');
        assert("payee"@[0] == 'p');
        assert("shipping"@[0] == 's');
        assert("payments"@[0] == 'p');
    }

    /// Where the `payee` field stands in the wire document.
    proof fn lemma_lookup_payee(t: Self)
        ensures
            lookup(t.wire_fields(), "payee"@) == (match t.payee {
                Some(x) => Some(x.encoding()),
                None => None::<Jv>,
            }),
    {
        reveal_strlit("reference_id");
        reveal_strlit("description");
        reveal_strlit("custom_id");
        reveal_strlit("invoice_id");
        reveal_strlit("id");
        reveal_strlit("soft_descriptor");
        reveal_strlit("items");
        reveal_strlit("amount");
        reveal_strlit("payee");
        reveal_strlit("payment_instruction");
        reveal_strlit("shipping");
        reveal_strlit("payments");
        assert("reference_id"@.len() == 12);
        assert("description"@.len() == 11);
        assert("custom_id"@.len() == 9);
        assert("invoice_id"@.len() == 10);
        assert("id"@.len() == 2);
        assert("soft_descriptor"@.len() == 15);
        assert("items"@.len() == 5);
        assert("amount"@.len() == 6);
        assert("payee"@.len() == 5);
        assert("payment_instruction"@.len() == 19);
        assert("shipping"@.len() == 8);
        assert("payments"@.len() == 8);
        assert("items"@[0] == 'i');
        assert("payee"@[0] == 'p');
        assert("shipping"@[0] == 's');
        assert("payments"@[0] == 'p');
    }

    /// Where the `payment_instruction` field stands in the wire document.
    proof fn lemma_lookup_payment_instruction(t: Self)
        ensures
            lookup(t.wire_fields(), "payment_instruction"@) == (match t.payment_instruction {
                Some(x) => Some(x.encoding()),
                None => None::<Jv>,
            }),
    {
        reveal_strlit("reference_id");
        reveal_strlit("description");
        reveal_strlit("custom_id");
        reveal_strlit("invoice_id");
        reveal_strlit("id");
        reveal_strlit("soft_descriptor");
        reveal_strlit("items");
        reveal_strlit("amount");
        reveal_strlit("payee");
        reveal_strlit("payment_instruction");
        reveal_strlit("shipping");
        reveal_strlit("payments");
        assert("reference_id"@.len() == 12);
        assert("description"@.len() == 11);
        assert("custom_id"@.len() == 9);
        assert("invoice_id"@.len() == 10);
        assert("id"@.len() == 2);
        assert("soft_descriptor"@.len() == 15);
        assert("items"@.len() == 5);
        assert("amount"@.len() == 6);
        assert("payee"@.len() == 5);
        assert("payment_instruction"@.len() == 19);
        assert("shipping"@.len() == 8);
        assert("payments"@.len() == 8);
        assert("items"@[0] == 'i');
        assert("payee"@[0] == 'p');
        assert("shipping"@[0] == 's');
        assert("payments"@[0] == 'p');
    }

    /// Where the `shipping` field stands in the wire document.
    proof fn lemma_lookup_shipping(t: Self)
        ensures
            lookup(t.wire_fields(), "shipping"@) == (match t.shipping {
                Some(x) => Some(x.encoding()),
                None => None::<Jv>,
            }),
    {
        reveal_strlit("reference_id");
        reveal_strlit("description");
        reveal_strlit("custom_id");
        reveal_strlit("invoice_id");
        reveal_strlit("id");
        reveal_strlit("soft_descriptor");
        reveal_strlit("items");
        reveal_strlit("amount");
        reveal_strlit("payee");
        reveal_strlit("payment_instruction");
        reveal_strlit("shipping");
        reveal_strlit("payments");
        assert("reference_id"@.len() == 12);
        assert("description"@.len() == 11);
        assert("custom_id"@.len() == 9);
        assert("invoice_id"@.len() == 10);
        assert("id"@.len() == 2);
        assert("soft_descriptor"@.len() == 15);
        assert("items"@.len() == 5);
        assert("amount"@.len() == 6);
        assert("payee"@.len() == 5);
        assert("payment_instruction"@.len() == 19);
        assert("shipping"@.len() == 8);
        assert("payments"@.len() == 8);
        assert("items"@[0] == 'i');
        assert("payee"@[0] == 'p');
        assert("shipping"@[0] == 's');
        assert("payments"@[0] == 'p');
    }

    /// Where the `payments` field stands in the wire document.
    proof fn lemma_lookup_payments(t: Self)
        ensures
            lookup(t.wire_fields(), "payments"@) == (match t.payments {
                Some(x) => Some(x.encoding()),
                None => None::<Jv>,
            }),
    {
        reveal_strlit("reference_id");
        reveal_strlit("description");
        reveal_strlit("custom_id");
        reveal_strlit("invoice_id");
        reveal_strlit("id");
        reveal_strlit("soft_descriptor");
        reveal_strlit("items");
        reveal_strlit("amount");
        reveal_strlit("payee");
        reveal_strlit("payment_instruction");
        reveal_strlit("shipping");
        reveal_strlit("payments");
        assert("reference_id"@.len() == 12);
        assert("description"@.len() == 11);
        assert("custom_id"@.len() == 9);
        assert("invoice_id"@.len() == 10);
        assert("id"@.len() == 2);
        assert("soft_descriptor"@.len() == 15);
        assert("items"@.len() == 5);
        assert("amount"@.len() == 6);
        assert("payee"@.len() == 5);
        assert("payment_instruction"@.len() == 19);
        assert("shipping"@.len() == 8);
        assert("payments"@.len() == 8);
        assert("items"@[0] == 'i');
        assert("payee"@[0] == 'p');
        assert("shipping"@[0] == 's');
        assert("payments"@[0] == 'p');
    }
}

impl WireCodec for PurchaseUnit {
    open spec fn encoding(self) -> Jv {
        Jv::Object(self.wire_fields())
    }

    open spec fn can_decode(v: Jv) -> bool {
        match v {
            Jv::Object(fs) => {
                &&& opt_ok::<String>(fs, "reference_id"@)
                &&& opt_ok::<String>(fs, "description"@)
                &&& opt_ok::<String>(fs, "custom_id"@)
                &&& opt_ok::<String>(fs, "invoice_id"@)
                &&& opt_ok::<String>(fs, "id"@)
                &&& opt_ok::<String>(fs, "soft_descriptor"@)
                &&& opt_ok::<Vec<Item>>(fs, "items"@)
                &&& req_ok::<Amount>(fs, "amount"@)
                &&& opt_ok::<Payee>(fs, "payee"@)
                &&& opt_ok::<PaymentInstruction>(fs, "payment_instruction"@)
                &&& opt_ok::<ShippingDetail>(fs, "shipping"@)
                &&& opt_ok::<PaymentCollection>(fs, "payments"@)
            },
            _ => false,
        }
    }

    open spec fn decodes_to(v: Jv, t: Self) -> bool {
        match v {
            Jv::Object(fs) => {
                &&& opt_rel::<String>(fs, "reference_id"@, t.reference_id)
                &&& opt_rel::<String>(fs, "description"@, t.description)
                &&& opt_rel::<String>(fs, "custom_id"@, t.custom_id)
                &&& opt_rel::<String>(fs, "invoice_id"@, t.invoice_id)
                &&& opt_rel::<String>(fs, "id"@, t.id)
                &&& opt_rel::<String>(fs, "soft_descriptor"@, t.soft_descriptor)
                &&& opt_rel::<Vec<Item>>(fs, "items"@, t.items)
                &&& req_rel::<Amount>(fs, "amount"@, t.amount)
                &&& opt_rel::<Payee>(fs, "payee"@, t.payee)
                &&& opt_rel::<PaymentInstruction>(fs, "payment_instruction"@, t.payment_instruction)
                &&& opt_rel::<ShippingDetail>(fs, "shipping"@, t.shipping)
                &&& opt_rel::<PaymentCollection>(fs, "payments"@, t.payments)
            },
            _ => false,
        }
    }

    #[verifier::rlimit(100)]
    fn encode(&self) -> (r: JsonValue) {
        let mut fs: Vec<(String, JsonValue)> = Vec::new();
        push_opt(&mut fs, "reference_id", &self.reference_id);
        push_opt(&mut fs, "description", &self.description);
        push_opt(&mut fs, "custom_id", &self.custom_id);
        push_opt(&mut fs, "invoice_id", &self.invoice_id);
        push_opt(&mut fs, "id", &self.id);
        push_opt(&mut fs, "soft_descriptor", &self.soft_descriptor);
        push_opt(&mut fs, "items", &self.items);
        push_req(&mut fs, "amount", &self.amount);
        push_opt(&mut fs, "payee", &self.payee);
        push_opt(&mut fs, "payment_instruction", &self.payment_instruction);
        push_opt(&mut fs, "shipping", &self.shipping);
        push_opt(&mut fs, "payments", &self.payments);
        proof {
            crate::json::lemma_concat_left_empty(opt_entry("reference_id"@, (*self).reference_id));
            assert(jv_of_fields(fs@) == (*self).wire_fields());
        }
        JsonValue::Object(fs)
    }

    fn decode(v: &JsonValue) -> (r: Result<Self, DecodeError>) {
        match v {
            JsonValue::Object(fields) => {
                let reference_id = match get_opt::<String>(fields, "reference_id") {
                    Ok(x) => x,
                    Err(e) => return Err(e),
                };
                let description = match get_opt::<String>(fields, "description") {
                    Ok(x) => x,
                    Err(e) => return Err(e),
                };
                let custom_id = match get_opt::<String>(fields, "custom_id") {
                    Ok(x) => x,
                    Err(e) => return Err(e),
                };
                let invoice_id = match get_opt::<String>(fields, "invoice_id") {
                    Ok(x) => x,
                    Err(e) => return Err(e),
                };
                let id = match get_opt::<String>(fields, "id") {
                    Ok(x) => x,
                    Err(e) => return Err(e),
                };
                let soft_descriptor = match get_opt::<String>(fields, "soft_descriptor") {
                    Ok(x) => x,
                    Err(e) => return Err(e),
                };
                let items = match get_opt::<Vec<Item>>(fields, "items") {
                    Ok(x) => x,
                    Err(e) => return Err(e),
                };
                let amount = match get_req::<Amount>(fields, "amount") {
                    Ok(x) => x,
                    Err(e) => return Err(e),
                };
                let payee = match get_opt::<Payee>(fields, "payee") {
                    Ok(x) => x,
                    Err(e) => return Err(e),
                };
                let payment_instruction = match get_opt::<PaymentInstruction>(fields, "payment_instruction") {
                    Ok(x) => x,
                    Err(e) => return Err(e),
                };
                let shipping = match get_opt::<ShippingDetail>(fields, "shipping") {
                    Ok(x) => x,
                    Err(e) => return Err(e),
                };
                let payments = match get_opt::<PaymentCollection>(fields, "payments") {
                    Ok(x) => x,
                    Err(e) => return Err(e),
                };
                Ok(PurchaseUnit { reference_id, description, custom_id, invoice_id, id, soft_descriptor, items, amount, payee, payment_instruction, shipping, payments })
            },
            _ => Err(DecodeError::WrongType("object".to_owned())),
        }
    }

    #[verifier::rlimit(100)]
    proof fn lemma_round_trip(t: Self, u: Self) {
        Self::lemma_lookup_reference_id(t);
        Self::lemma_lookup_description(t);
        Self::lemma_lookup_custom_id(t);
        Self::lemma_lookup_invoice_id(t);
        Self::lemma_lookup_id(t);
        Self::lemma_lookup_soft_descriptor(t);
        Self::lemma_lookup_items(t);
        Self::lemma_lookup_amount(t);
        Self::lemma_lookup_payee(t);
        Self::lemma_lookup_payment_instruction(t);
        Self::lemma_lookup_shipping(t);
        Self::lemma_lookup_payments(t);
        if let Some(x) = t.items {
            <Vec<Item> as WireCodec>::lemma_round_trip(x, x);
        }
        Amount::lemma_round_trip(t.amount, u.amount);
        if let Some(x) = t.payee {
            Payee::lemma_round_trip(x, x);
        }
        if let Some(x) = t.payment_instruction {
            PaymentInstruction::lemma_round_trip(x, x);
        }
        if let Some(x) = t.shipping {
            ShippingDetail::lemma_round_trip(x, x);
        }
        if let Some(x) = t.payments {
            PaymentCollection::lemma_round_trip(x, x);
        }
        if Self::decodes_to(t.encoding(), u) {
            if let (Some(x), Some(y)) = (t.items, u.items) {
                <Vec<Item> as WireCodec>::lemma_round_trip(x, y);
            }
            if let (Some(x), Some(y)) = (t.payee, u.payee) {
                Payee::lemma_round_trip(x, y);
            }
            if let (Some(x), Some(y)) = (t.payment_instruction, u.payment_instruction) {
                PaymentInstruction::lemma_round_trip(x, y);
            }
            if let (Some(x), Some(y)) = (t.shipping, u.shipping) {
                ShippingDetail::lemma_round_trip(x, y);
            }
            if let (Some(x), Some(y)) = (t.payments, u.payments) {
                PaymentCollection::lemma_round_trip(x, y);
            }
            assert(opt_entry("reference_id"@, u.reference_id) == opt_entry("reference_id"@, t.reference_id));
            assert(opt_entry("description"@, u.description) == opt_entry("description"@, t.description));
            assert(opt_entry("custom_id"@, u.custom_id) == opt_entry("custom_id"@, t.custom_id));
            assert(opt_entry("invoice_id"@, u.invoice_id) == opt_entry("invoice_id"@, t.invoice_id));
            assert(opt_entry("id"@, u.id) == opt_entry("id"@, t.id));
            assert(opt_entry("soft_descriptor"@, u.soft_descriptor) == opt_entry("soft_descriptor"@, t.soft_descriptor));
            assert(opt_entry("items"@, u.items) == opt_entry("items"@, t.items));
            assert(field_entry("amount"@, u.amount.encoding()) == field_entry("amount"@, t.amount.encoding()));
            assert(opt_entry("payee"@, u.payee) == opt_entry("payee"@, t.payee));
            assert(opt_entry("payment_instruction"@, u.payment_instruction) == opt_entry("payment_instruction"@, t.payment_instruction));
            assert(opt_entry("shipping"@, u.shipping) == opt_entry("shipping"@, t.shipping));
            assert(opt_entry("payments"@, u.payments) == opt_entry("payments"@, t.payments));
            assert(u.wire_fields() == t.wire_fields());
        }
    }
}

/// The type of landing page to show on the PayPal site for customer checkout.
#[derive(Debug, Clone, Copy, PartialEq, Eq)]
pub enum LandingPage {
    /// Redirect the customer to a page to log in to PayPal and approve the
    /// payment.
    Login,
    /// Redirect the customer to a page to enter card or other billing
    /// information.
    Billing,
    /// Redirect the customer to either page depending on their previous
    /// interaction with PayPal.
    NoPreference,
}

impl LandingPage {
    /// The wire token of this value.
    pub open spec fn spec_token(self) -> Seq<char> {
        match self {
            LandingPage::Login => "LOGIN"@,
            LandingPage::Billing => "BILLING"@,
            LandingPage::NoPreference => "NO_PREFERENCE"@,
        }
    }

    /// Whether `s` is one of the documented tokens.
    pub open spec fn spec_is_token(s: Seq<char>) -> bool {
        s == "LOGIN"@ || s == "BILLING"@ || s == "NO_PREFERENCE"@
    }
}

impl WireCodec for LandingPage {
    open spec fn encoding(self) -> Jv {
        Jv::Str(self.spec_token())
    }

    open spec fn can_decode(v: Jv) -> bool {
        match v {
            Jv::Str(s) => LandingPage::spec_is_token(s),
            _ => false,
        }
    }

    open spec fn decodes_to(v: Jv, t: Self) -> bool {
        v == Jv::Str(t.spec_token())
    }

    fn encode(&self) -> (r: JsonValue) {
        let tok = match self {
            LandingPage::Login => "LOGIN",
            LandingPage::Billing => "BILLING",
            LandingPage::NoPreference => "NO_PREFERENCE",
        };
        JsonValue::Str(tok.to_owned())
    }

    fn decode(v: &JsonValue) -> (r: Result<Self, DecodeError>)
        ensures
            match r {
                Err(DecodeError::UnknownToken(s)) => v@ == Jv::Str(s@)
                    && !LandingPage::spec_is_token(s@),
                Err(DecodeError::WrongType(_)) => !(v@ is Str),
                Err(DecodeError::MissingField(_)) => false,
                Ok(_) => true,
            },
    {
        match v {
            JsonValue::Str(s) => {
                let c = s.as_str();
                if str_eq(c, "LOGIN") {
                    Ok(LandingPage::Login)
                } else if str_eq(c, "BILLING") {
                    Ok(LandingPage::Billing)
                } else if str_eq(c, "NO_PREFERENCE") {
                    Ok(LandingPage::NoPreference)
                } else {
                    Err(DecodeError::UnknownToken(s.clone()))
                }
            },
            _ => Err(DecodeError::WrongType("string".to_owned())),
        }
    }

    proof fn lemma_round_trip(t: Self, u: Self) {
    }
}

/// The shipping preference.
#[derive(Debug, Clone, Copy, PartialEq, Eq)]
pub enum ShippingPreference {
    /// Use the customer-provided shipping address on the PayPal site.
    GetFromFile,
    /// Redact the shipping address from the PayPal site.
    NoShipping,
    /// Use the merchant-provided address; the customer cannot change it.
    SetProvidedAddress,
}

impl ShippingPreference {
    /// The wire token of this value.
    pub open spec fn spec_token(self) -> Seq<char> {
        match self {
            ShippingPreference::GetFromFile => "GET_FROM_FILE"@,
            ShippingPreference::NoShipping => "NO_SHIPPING"@,
            ShippingPreference::SetProvidedAddress => "SET_PROVIDED_ADDRESS"@,
        }
    }

    /// Whether `s` is one of the documented tokens.
    pub open spec fn spec_is_token(s: Seq<char>) -> bool {
        s == "GET_FROM_FILE"@ || s == "NO_SHIPPING"@ || s == "SET_PROVIDED_ADDRESS"@
    }
}

impl WireCodec for ShippingPreference {
    open spec fn encoding(self) -> Jv {
        Jv::Str(self.spec_token())
    }

    open spec fn can_decode(v: Jv) -> bool {
        match v {
            Jv::Str(s) => ShippingPreference::spec_is_token(s),
            _ => false,
        }
    }

    open spec fn decodes_to(v: Jv, t: Self) -> bool {
        v == Jv::Str(t.spec_token())
    }

    fn encode(&self) -> (r: JsonValue) {
        let tok = match self {
            ShippingPreference::GetFromFile => "GET_FROM_FILE",
            ShippingPreference::NoShipping => "NO_SHIPPING",
            ShippingPreference::SetProvidedAddress => "SET_PROVIDED_ADDRESS",
        };
        JsonValue::Str(tok.to_owned())
    }

    fn decode(v: &JsonValue) -> (r: Result<Self, DecodeError>)
        ensures
            match r {
                Err(DecodeError::UnknownToken(s)) => v@ == Jv::Str(s@)
                    && !ShippingPreference::spec_is_token(s@),
                Err(DecodeError::WrongType(_)) => !(v@ is Str),
                Err(DecodeError::MissingField(_)) => false,
                Ok(_) => true,
            },
    {
        match v {
            JsonValue::Str(s) => {
                let c = s.as_str();
                if str_eq(c, "GET_FROM_FILE") {
                    Ok(ShippingPreference::GetFromFile)
                } else if str_eq(c, "NO_SHIPPING") {
                    Ok(ShippingPreference::NoShipping)
                } else if str_eq(c, "SET_PROVIDED_ADDRESS") {
                    Ok(ShippingPreference::SetProvidedAddress)
                } else {
                    Err(DecodeError::UnknownToken(s.clone()))
                }
            },
            _ => Err(DecodeError::WrongType("string".to_owned())),
        }
    }

    proof fn lemma_round_trip(t: Self, u: Self) {
    }
}

/// Configures a Continue or Pay Now checkout flow.
#[derive(Debug, Clone, Copy, PartialEq, Eq)]
pub enum UserAction {
    /// Show a Continue button after redirecting the customer; use when the
    /// final amount is not yet known.
    Continue,
    /// Show a Pay Now button after redirecting the customer; use when the
    /// final amount is known and payment should be processed immediately.
    PayNow,
}

impl UserAction {
    /// The wire token of this value.
    pub open spec fn spec_token(self) -> Seq<char> {
        match self {
            UserAction::Continue => "CONTINUE"@,
            UserAction::PayNow => "PAY_NOW"@,
        }
    }

    /// Whether `s` is one of the documented tokens.
    pub open spec fn spec_is_token(s: Seq<char>) -> bool {
        s == "CONTINUE"@ || s == "PAY_NOW"@
    }
}

impl WireCodec for UserAction {
    open spec fn encoding(self) -> Jv {
        Jv::Str(self.spec_token())
    }

    open spec fn can_decode(v: Jv) -> bool {
        match v {
            Jv::Str(s) => UserAction::spec_is_token(s),
            _ => false,
        }
    }

    open spec fn decodes_to(v: Jv, t: Self) -> bool {
        v == Jv::Str(t.spec_token())
    }

    fn encode(&self) -> (r: JsonValue) {
        let tok = match self {
            UserAction::Continue => "CONTINUE",
            UserAction::PayNow => "PAY_NOW",
        };
        JsonValue::Str(tok.to_owned())
    }

    fn decode(v: &JsonValue) -> (r: Result<Self, DecodeError>)
        ensures
            match r {
                Err(DecodeError::UnknownToken(s)) => v@ == Jv::Str(s@)
                    && !UserAction::spec_is_token(s@),
                Err(DecodeError::WrongType(_)) => !(v@ is Str),
                Err(DecodeError::MissingField(_)) => false,
                Ok(_) => true,
            },
    {
        match v {
            JsonValue::Str(s) => {
                let c = s.as_str();
                if str_eq(c, "CONTINUE") {
                    Ok(UserAction::Continue)
                } else if str_eq(c, "PAY_NOW") {
                    Ok(UserAction::PayNow)
                } else {
                    Err(DecodeError::UnknownToken(s.clone()))
                }
            },
            _ => Err(DecodeError::WrongType("string".to_owned())),
        }
    }

    proof fn lemma_round_trip(t: Self, u: Self) {
    }
}

/// The merchant-preferred payment sources.
#[derive(Debug, Clone, Copy, PartialEq, Eq)]
pub enum PayeePreferred {
    /// Accept any type of payment from the customer.
    Unrestricted,
    /// Accept only immediate payment from the customer.
    ImmediatePaymentRequired,
}

impl PayeePreferred {
    /// The wire token of this value.
    pub open spec fn spec_token(self) -> Seq<char> {
        match self {
            PayeePreferred::Unrestricted => "UNRESTRICTED"@,
            PayeePreferred::ImmediatePaymentRequired => "IMMEDIATE_PAYMENT_REQUIRED"@,
        }
    }

    /// Whether `s` is one of the documented tokens.
    pub open spec fn spec_is_token(s: Seq<char>) -> bool {
        s == "UNRESTRICTED"@ || s == "IMMEDIATE_PAYMENT_REQUIRED"@
    }
}

impl WireCodec for PayeePreferred {
    open spec fn encoding(self) -> Jv {
        Jv::Str(self.spec_token())
    }

    open spec fn can_decode(v: Jv) -> bool {
        match v {
            Jv::Str(s) => PayeePreferred::spec_is_token(s),
            _ => false,
        }
    }

    open spec fn decodes_to(v: Jv, t: Self) -> bool {
        v == Jv::Str(t.spec_token())
    }

    fn encode(&self) -> (r: JsonValue) {
        let tok = match self {
            PayeePreferred::Unrestricted => "UNRESTRICTED",
            PayeePreferred::ImmediatePaymentRequired => "IMMEDIATE_PAYMENT_REQUIRED",
        };
        JsonValue::Str(tok.to_owned())
    }

    fn decode(v: &JsonValue) -> (r: Result<Self, DecodeError>)
        ensures
            match r {
                Err(DecodeError::UnknownToken(s)) => v@ == Jv::Str(s@)
                    && !PayeePreferred::spec_is_token(s@),
                Err(DecodeError::WrongType(_)) => !(v@ is Str),
                Err(DecodeError::MissingField(_)) => false,
                Ok(_) => true,
            },
    {
        match v {
            JsonValue::Str(s) => {
                let c = s.as_str();
                if str_eq(c, "UNRESTRICTED") {
                    Ok(PayeePreferred::Unrestricted)
                } else if str_eq(c, "IMMEDIATE_PAYMENT_REQUIRED") {
                    Ok(PayeePreferred::ImmediatePaymentRequired)
                } else {
                    Err(DecodeError::UnknownToken(s.clone()))
                }
            },
            _ => Err(DecodeError::WrongType("string".to_owned())),
        }
    }

    proof fn lemma_round_trip(t: Self, u: Self) {
    }
}

/// A payment method preference.
#[derive(Debug, Clone, PartialEq)]
pub struct PaymentMethod {
    /// The customer-selected payment method on the merchant site.
    pub payer_selected: Option<String>,
    /// The merchant-preferred payment sources.
    pub payee_preferred: Option<PayeePreferred>,
}

impl PaymentMethod {
    /// The fields of this value's wire document, in emission order.
    pub open spec fn wire_fields(self) -> Seq<(Seq<char>, Jv)> {
        opt_entry("payer_selected"@, self.payer_selected) + opt_entry("payee_preferred"@, self.payee_preferred)
    }
}

impl WireCodec for PaymentMethod {
    open spec fn encoding(self) -> Jv {
        Jv::Object(self.wire_fields())
    }

    open spec fn can_decode(v: Jv) -> bool {
        match v {
            Jv::Object(fs) => {
                &&& opt_ok::<String>(fs, "payer_selected"@)
                &&& opt_ok::<PayeePreferred>(fs, "payee_preferred"@)
            },
            _ => false,
        }
    }

    open spec fn decodes_to(v: Jv, t: Self) -> bool {
        match v {
            Jv::Object(fs) => {
                &&& opt_rel::<String>(fs, "payer_selected"@, t.payer_selected)
                &&& opt_rel::<PayeePreferred>(fs, "payee_preferred"@, t.payee_preferred)
            },
            _ => false,
        }
    }

    fn encode(&self) -> (r: JsonValue) {
        let mut fs: Vec<(String, JsonValue)> = Vec::new();
        if let Some(x) = &self.payer_selected {
            fs.push(("payer_selected".to_owned(), x.encode()));
        }
        if let Some(x) = &self.payee_preferred {
            fs.push(("payee_preferred".to_owned(), x.encode()));
        }
        proof {
            crate::json::lemma_jv_of_fields(fs@);
            assert(jv_of_fields(fs@) =~= (*self).wire_fields());
        }
        JsonValue::Object(fs)
    }

    fn decode(v: &JsonValue) -> (r: Result<Self, DecodeError>) {
        match v {
            JsonValue::Object(fields) => {
                let payer_selected = match get_opt::<String>(fields, "payer_selected") {
                    Ok(x) => x,
                    Err(e) => return Err(e),
                };
                let payee_preferred = match get_opt::<PayeePreferred>(fields, "payee_preferred") {
                    Ok(x) => x,
                    Err(e) => return Err(e),
                };
                Ok(PaymentMethod { payer_selected, payee_preferred })
            },
            _ => Err(DecodeError::WrongType("object".to_owned())),
        }
    }

    proof fn lemma_round_trip(t: Self, u: Self) {
        reveal_strlit("payer_selected");
        reveal_strlit("payee_preferred");
        assert("payer_selected"@.len() == 14);
        assert("payee_preferred"@.len() == 15);
        if let Some(x) = t.payee_preferred {
            PayeePreferred::lemma_round_trip(x, x);
        }
        if Self::decodes_to(t.encoding(), u) {
            if let (Some(x), Some(y)) = (t.payee_preferred, u.payee_preferred) {
                PayeePreferred::lemma_round_trip(x, y);
            }
            assert(u.wire_fields() =~= t.wire_fields());
        }
    }
}

/// Customizes the payer experience during the approval process.
#[derive(Debug, Clone, PartialEq)]
pub struct ApplicationContext {
    /// The label that overrides the business name on the PayPal site.
    pub brand_name: Option<String>,
    /// The BCP 47-formatted locale of the pages shown.
    pub locale: Option<String>,
    /// The type of landing page to show for customer checkout.
    pub landing_page: Option<LandingPage>,
    /// The shipping preference.
    pub shipping_preference: Option<ShippingPreference>,
    /// The checkout flow to configure.
    pub user_action: Option<UserAction>,
    /// The customer and merchant payment preferences.
    pub payment_method: Option<PaymentMethod>,
    /// Where the customer is redirected after approving the payment.
    pub return_url: Option<String>,
    /// Where the customer is redirected after cancelling the payment.
    pub cancel_url: Option<String>,
}

impl ApplicationContext {
    /// The fields of this value's wire document, in emission order.
    pub open spec fn wire_fields(self) -> Seq<(Seq<char>, Jv)> {
        opt_entry("brand_name"@, self.brand_name) + opt_entry("locale"@, self.locale) + opt_entry("landing_page"@, self.landing_page) + opt_entry("shipping_preference"@, self.shipping_preference) + opt_entry("user_action"@, self.user_action) + opt_entry("payment_method"@, self.payment_method) + opt_entry("return_url"@, self.return_url) + opt_entry("cancel_url"@, self.cancel_url)
    }
}

impl WireCodec for ApplicationContext {
    open spec fn encoding(self) -> Jv {
        Jv::Object(self.wire_fields())
    }

    open spec fn can_decode(v: Jv) -> bool {
        match v {
            Jv::Object(fs) => {
                &&& opt_ok::<String>(fs, "brand_name"@)
                &&& opt_ok::<String>(fs, "locale"@)
                &&& opt_ok::<LandingPage>(fs, "landing_page"@)
                &&& opt_ok::<ShippingPreference>(fs, "shipping_preference"@)
                &&& opt_ok::<UserAction>(fs, "user_action"@)
                &&& opt_ok::<PaymentMethod>(fs, "payment_method"@)
                &&& opt_ok::<String>(fs, "return_url"@)
                &&& opt_ok::<String>(fs, "cancel_url"@)
            },
            _ => false,
        }
    }

    open spec fn decodes_to(v: Jv, t: Self) -> bool {
        match v {
            Jv::Object(fs) => {
                &&& opt_rel::<String>(fs, "brand_name"@, t.brand_name)
                &&& opt_rel::<String>(fs, "locale"@, t.locale)
                &&& opt_rel::<LandingPage>(fs, "landing_page"@, t.landing_page)
                &&& opt_rel::<ShippingPreference>(fs, "shipping_preference"@, t.shipping_preference)
                &&& opt_rel::<UserAction>(fs, "user_action"@, t.user_action)
                &&& opt_rel::<PaymentMethod>(fs, "payment_method"@, t.payment_method)
                &&& opt_rel::<String>(fs, "return_url"@, t.return_url)
                &&& opt_rel::<String>(fs, "cancel_url"@, t.cancel_url)
            },
            _ => false,
        }
    }

    fn encode(&self) -> (r: JsonValue) {
        let mut fs: Vec<(String, JsonValue)> = Vec::new();
        push_opt(&mut fs, "brand_name", &self.brand_name);
        push_opt(&mut fs, "locale", &self.locale);
        push_opt(&mut fs, "landing_page", &self.landing_page);
        push_opt(&mut fs, "shipping_preference", &self.shipping_preference);
        push_opt(&mut fs, "user_action", &self.user_action);
        push_opt(&mut fs, "payment_method", &self.payment_method);
        push_opt(&mut fs, "return_url", &self.return_url);
        push_opt(&mut fs, "cancel_url", &self.cancel_url);
        proof {
            crate::json::lemma_concat_left_empty(opt_entry("brand_name"@, (*self).brand_name));
            assert(jv_of_fields(fs@) == (*self).wire_fields());
        }
        JsonValue::Object(fs)
    }

    fn decode(v: &JsonValue) -> (r: Result<Self, DecodeError>) {
        match v {
            JsonValue::Object(fields) => {
                let brand_name = match get_opt::<String>(fields, "brand_name") {
                    Ok(x) => x,
                    Err(e) => return Err(e),
                };
                let locale = match get_opt::<String>(fields, "locale") {
                    Ok(x) => x,
                    Err(e) => return Err(e),
                };
                let landing_page = match get_opt::<LandingPage>(fields, "landing_page") {
                    Ok(x) => x,
                    Err(e) => return Err(e),
                };
                let shipping_preference = match get_opt::<ShippingPreference>(fields, "shipping_preference") {
                    Ok(x) => x,
                    Err(e) => return Err(e),
                };
                let user_action = match get_opt::<UserAction>(fields, "user_action") {
                    Ok(x) => x,
                    Err(e) => return Err(e),
                };
                let payment_method = match get_opt::<PaymentMethod>(fields, "payment_method") {
                    Ok(x) => x,
                    Err(e) => return Err(e),
                };
                let return_url = match get_opt::<String>(fields, "return_url") {
                    Ok(x) => x,
                    Err(e) => return Err(e),
                };
                let cancel_url = match get_opt::<String>(fields, "cancel_url") {
                    Ok(x) => x,
                    Err(e) => return Err(e),
                };
                Ok(ApplicationContext { brand_name, locale, landing_page, shipping_preference, user_action, payment_method, return_url, cancel_url })
            },
            _ => Err(DecodeError::WrongType("object".to_owned())),
        }
    }

    #[verifier::rlimit(100)]
    proof fn lemma_round_trip(t: Self, u: Self) {
        reveal_strlit("brand_name");
        reveal_strlit("locale");
        reveal_strlit("landing_page");
        reveal_strlit("shipping_preference");
        reveal_strlit("user_action");
        reveal_strlit("payment_method");
        reveal_strlit("return_url");
        reveal_strlit("cancel_url");
        assert("brand_name"@.len() == 10);
        assert("locale"@.len() == 6);
        assert("landing_page"@.len() == 12);
        assert("shipping_preference"@.len() == 19);
        assert("user_action"@.len() == 11);
        assert("payment_method"@.len() == 14);
        assert("return_url"@.len() == 10);
        assert("cancel_url"@.len() == 10);
        assert("brand_name"@[0] == 'b');
        assert("return_url"@[0] == 'r');
        assert("cancel_url"@[0] == 'c');
        if let Some(x) = t.landing_page {
            LandingPage::lemma_round_trip(x, x);
        }
        if let Some(x) = t.shipping_preference {
            ShippingPreference::lemma_round_trip(x, x);
        }
        if let Some(x) = t.user_action {
            UserAction::lemma_round_trip(x, x);
        }
        if let Some(x) = t.payment_method {
            PaymentMethod::lemma_round_trip(x, x);
        }
        if Self::decodes_to(t.encoding(), u) {
            if let (Some(x), Some(y)) = (t.landing_page, u.landing_page) {
                LandingPage::lemma_round_trip(x, y);
            }
            if let (Some(x), Some(y)) = (t.shipping_preference, u.shipping_preference) {
                ShippingPreference::lemma_round_trip(x, y);
            }
            if let (Some(x), Some(y)) = (t.user_action, u.user_action) {
                UserAction::lemma_round_trip(x, y);
            }
            if let (Some(x), Some(y)) = (t.payment_method, u.payment_method) {
                PaymentMethod::lemma_round_trip(x, y);
            }
            assert(opt_entry("brand_name"@, u.brand_name) == opt_entry("brand_name"@, t.brand_name));
            assert(opt_entry("locale"@, u.locale) == opt_entry("locale"@, t.locale));
            assert(opt_entry("landing_page"@, u.landing_page) == opt_entry("landing_page"@, t.landing_page));
            assert(opt_entry("shipping_preference"@, u.shipping_preference) == opt_entry("shipping_preference"@, t.shipping_preference));
            assert(opt_entry("user_action"@, u.user_action) == opt_entry("user_action"@, t.user_action));
            assert(opt_entry("payment_method"@, u.payment_method) == opt_entry("payment_method"@, t.payment_method));
            assert(opt_entry("return_url"@, u.return_url) == opt_entry("return_url"@, t.return_url));
            assert(opt_entry("cancel_url"@, u.cancel_url) == opt_entry("cancel_url"@, t.cancel_url));
            assert(u.wire_fields() == t.wire_fields());
        }
    }
}

/// A card used in payment sources.
#[derive(Debug, Clone, PartialEq)]
pub struct PaymentCard {
    /// The card number.
    pub number: String,
    /// The expiry date.
    pub expiry: String,
    /// The card owner's name.
    pub name: String,
    /// The billing address.
    pub billing_address: Address,
}

impl PaymentCard {
    /// The fields of this value's wire document, in emission order.
    pub open spec fn wire_fields(self) -> Seq<(Seq<char>, Jv)> {
        field_entry("number"@, self.number.encoding()) + field_entry("expiry"@, self.expiry.encoding()) + field_entry("name"@, self.name.encoding()) + field_entry("billing_address"@, self.billing_address.encoding())
    }
}

impl WireCodec for PaymentCard {
    open spec fn encoding(self) -> Jv {
        Jv::Object(self.wire_fields())
    }

    open spec fn can_decode(v: Jv) -> bool {
        match v {
            Jv::Object(fs) => {
                &&& req_ok::<String>(fs, "number"@)
                &&& req_ok::<String>(fs, "expiry"@)
                &&& req_ok::<String>(fs, "name"@)
                &&& req_ok::<Address>(fs, "billing_address"@)
            },
            _ => false,
        }
    }

    open spec fn decodes_to(v: Jv, t: Self) -> bool {
        match v {
            Jv::Object(fs) => {
                &&& req_rel::<String>(fs, "number"@, t.number)
                &&& req_rel::<String>(fs, "expiry"@, t.expiry)
                &&& req_rel::<String>(fs, "name"@, t.name)
                &&& req_rel::<Address>(fs, "billing_address"@, t.billing_address)
            },
            _ => false,
        }
    }

    fn encode(&self) -> (r: JsonValue) {
        let mut fs: Vec<(String, JsonValue)> = Vec::new();
        fs.push(("number".to_owned(), self.number.encode()));
        fs.push(("expiry".to_owned(), self.expiry.encode()));
        fs.push(("name".to_owned(), self.name.encode()));
        fs.push(("billing_address".to_owned(), self.billing_address.encode()));
        proof {
            crate::json::lemma_jv_of_fields(fs@);
            assert(jv_of_fields(fs@) =~= (*self).wire_fields());
        }
        JsonValue::Object(fs)
    }

    fn decode(v: &JsonValue) -> (r: Result<Self, DecodeError>) {
        match v {
            JsonValue::Object(fields) => {
                let number = match get_req::<String>(fields, "number") {
                    Ok(x) => x,
                    Err(e) => return Err(e),
                };
                let expiry = match get_req::<String>(fields, "expiry") {
                    Ok(x) => x,
                    Err(e) => return Err(e),
                };
                let name = match get_req::<String>(fields, "name") {
                    Ok(x) => x,
                    Err(e) => return Err(e),
                };
                let billing_address = match get_req::<Address>(fields, "billing_address") {
                    Ok(x) => x,
                    Err(e) => return Err(e),
                };
                Ok(PaymentCard { number, expiry, name, billing_address })
            },
            _ => Err(DecodeError::WrongType("object".to_owned())),
        }
    }

    proof fn lemma_round_trip(t: Self, u: Self) {
        reveal_strlit("number");
        reveal_strlit("expiry");
        reveal_strlit("name");
        reveal_strlit("billing_address");
        assert("number"@.len() == 6);
        assert("expiry"@.len() == 6);
        assert("name"@.len() == 4);
        assert("billing_address"@.len() == 15);
        assert("number"@[0] == 'n');
        assert("expiry"@[0] == 'e');
        Address::lemma_round_trip(t.billing_address, u.billing_address);
        if Self::decodes_to(t.encoding(), u) {
            assert(u.wire_fields() =~= t.wire_fields());
        }
    }
}

/// A transaction reference.
#[derive(Debug, Clone, PartialEq)]
pub struct TransactionReference {
    /// The transaction ID.
    pub id: String,
    /// The transaction network, such as `VISA`.
    pub network: String,
}

impl TransactionReference {
    /// The fields of this value's wire document, in emission order.
    pub open spec fn wire_fields(self) -> Seq<(Seq<char>, Jv)> {
        field_entry("id"@, self.id.encoding()) + field_entry("network"@, self.network.encoding())
    }
}

impl WireCodec for TransactionReference {
    open spec fn encoding(self) -> Jv {
        Jv::Object(self.wire_fields())
    }

    open spec fn can_decode(v: Jv) -> bool {
        match v {
            Jv::Object(fs) => {
                &&& req_ok::<String>(fs, "id"@)
                &&& req_ok::<String>(fs, "network"@)
            },
            _ => false,
        }
    }

    open spec fn decodes_to(v: Jv, t: Self) -> bool {
        match v {
            Jv::Object(fs) => {
                &&& req_rel::<String>(fs, "id"@, t.id)
                &&& req_rel::<String>(fs, "network"@, t.network)
            },
            _ => false,
        }
    }

    fn encode(&self) -> (r: JsonValue) {
        let mut fs: Vec<(String, JsonValue)> = Vec::new();
        fs.push(("id".to_owned(), self.id.encode()));
        fs.push(("network".to_owned(), self.network.encode()));
        proof {
            crate::json::lemma_jv_of_fields(fs@);
            assert(jv_of_fields(fs@) =~= (*self).wire_fields());
        }
        JsonValue::Object(fs)
    }

    fn decode(v: &JsonValue) -> (r: Result<Self, DecodeError>) {
        match v {
            JsonValue::Object(fields) => {
                let id = match get_req::<String>(fields, "id") {
                    Ok(x) => x,
                    Err(e) => return Err(e),
                };
                let network = match get_req::<String>(fields, "network") {
                    Ok(x) => x,
                    Err(e) => return Err(e),
                };
                Ok(TransactionReference { id, network })
            },
            _ => Err(DecodeError::WrongType("object".to_owned())),
        }
    }

    proof fn lemma_round_trip(t: Self, u: Self) {
        reveal_strlit("id");
        reveal_strlit("network");
        assert("id"@.len() == 2);
        assert("network"@.len() == 7);
        if Self::decodes_to(t.encoding(), u) {
            assert(u.wire_fields() =~= t.wire_fields());
        }
    }
}

/// A stored credential.
#[derive(Debug, Clone, PartialEq)]
pub struct StoredCredential {
    /// The payment initiator, such as `MERCHANT`.
    pub payment_initiator: String,
    /// The payment type, such as `RECURRING`.
    pub payment_type: String,
    /// The stored credential usage, such as `SUBSEQUENT`.
    pub usage: String,
    /// The previous transaction reference on the card network.
    pub previous_network_transaction_reference: TransactionReference,
}

impl StoredCredential {
    /// The fields of this value's wire document, in emission order.
    pub open spec fn wire_fields(self) -> Seq<(Seq<char>, Jv)> {
        field_entry("payment_initiator"@, self.payment_initiator.encoding()) + field_entry("payment_type"@, self.payment_type.encoding()) + field_entry("usage"@, self.usage.encoding()) + field_entry("previous_network_transaction_reference"@, self.previous_network_transaction_reference.encoding())
    }
}

impl WireCodec for StoredCredential {
    open spec fn encoding(self) -> Jv {
        Jv::Object(self.wire_fields())
    }

    open spec fn can_decode(v: Jv) -> bool {
        match v {
            Jv::Object(fs) => {
                &&& req_ok::<String>(fs, "payment_initiator"@)
                &&& req_ok::<String>(fs, "payment_type"@)
                &&& req_ok::<String>(fs, "usage"@)
                &&& req_ok::<TransactionReference>(fs, "previous_network_transaction_reference"@)
            },
            _ => false,
        }
    }

    open spec fn decodes_to(v: Jv, t: Self) -> bool {
        match v {
            Jv::Object(fs) => {
                &&& req_rel::<String>(fs, "payment_initiator"@, t.payment_initiator)
                &&& req_rel::<String>(fs, "payment_type"@, t.payment_type)
                &&& req_rel::<String>(fs, "usage"@, t.usage)
                &&& req_rel::<TransactionReference>(fs, "previous_network_transaction_reference"@, t.previous_network_transaction_reference)
            },
            _ => false,
        }
    }

    fn encode(&self) -> (r: JsonValue) {
        let mut fs: Vec<(String, JsonValue)> = Vec::new();
        fs.push(("payment_initiator".to_owned(), self.payment_initiator.encode()));
        fs.push(("payment_type".to_owned(), self.payment_type.encode()));
        fs.push(("usage".to_owned(), self.usage.encode()));
        fs.push(("previous_network_transaction_reference".to_owned(), self.previous_network_transaction_reference.encode()));
        proof {
            crate::json::lemma_jv_of_fields(fs@);
            assert(jv_of_fields(fs@) =~= (*self).wire_fields());
        }
        JsonValue::Object(fs)
    }

    fn decode(v: &JsonValue) -> (r: Result<Self, DecodeError>) {
        match v {
            JsonValue::Object(fields) => {
                let payment_initiator = match get_req::<String>(fields, "payment_initiator") {
                    Ok(x) => x,
                    Err(e) => return Err(e),
                };
                let payment_type = match get_req::<String>(fields, "payment_type") {
                    Ok(x) => x,
                    Err(e) => return Err(e),
                };
                let usage = match get_req::<String>(fields, "usage") {
                    Ok(x) => x,
                    Err(e) => return Err(e),
                };
                let previous_network_transaction_reference = match get_req::<TransactionReference>(fields, "previous_network_transaction_reference") {
                    Ok(x) => x,
                    Err(e) => return Err(e),
                };
                Ok(StoredCredential { payment_initiator, payment_type, usage, previous_network_transaction_reference })
            },
            _ => Err(DecodeError::WrongType("object".to_owned())),
        }
    }

    proof fn lemma_round_trip(t: Self, u: Self) {
        reveal_strlit("payment_initiator");
        reveal_strlit("payment_type");
        reveal_strlit("usage");
        reveal_strlit("previous_network_transaction_reference");
        assert("payment_initiator"@.len() == 17);
        assert("payment_type"@.len() == 12);
        assert("usage"@.len() == 5);
        assert("previous_network_transaction_reference"@.len() == 38);
        TransactionReference::lemma_round_trip(t.previous_network_transaction_reference, u.previous_network_transaction_reference);
        if Self::decodes_to(t.encoding(), u) {
            assert(u.wire_fields() =~= t.wire_fields());
        }
    }
}

/// The payment source supplied when creating an order.
#[derive(Debug, Clone, PartialEq)]
pub struct OrderPaymentSource {
    /// The card used in the payment.
    pub card: PaymentCard,
    /// A stored credential.
    pub stored_credential: Option<StoredCredential>,
}

impl OrderPaymentSource {
    /// The fields of this value's wire document, in emission order.
    pub open spec fn wire_fields(self) -> Seq<(Seq<char>, Jv)> {
        field_entry("card"@, self.card.encoding()) + opt_entry("stored_credential"@, self.stored_credential)
    }
}

impl WireCodec for OrderPaymentSource {
    open spec fn encoding(self) -> Jv {
        Jv::Object(self.wire_fields())
    }

    open spec fn can_decode(v: Jv) -> bool {
        match v {
            Jv::Object(fs) => {
                &&& req_ok::<PaymentCard>(fs, "card"@)
                &&& opt_ok::<StoredCredential>(fs, "stored_credential"@)
            },
            _ => false,
        }
    }

    open spec fn decodes_to(v: Jv, t: Self) -> bool {
        match v {
            Jv::Object(fs) => {
                &&& req_rel::<PaymentCard>(fs, "card"@, t.card)
                &&& opt_rel::<StoredCredential>(fs, "stored_credential"@, t.stored_credential)
            },
            _ => false,
        }
    }

    fn encode(&self) -> (r: JsonValue) {
        let mut fs: Vec<(String, JsonValue)> = Vec::new();
        fs.push(("card".to_owned(), self.card.encode()));
        if let Some(x) = &self.stored_credential {
            fs.push(("stored_credential".to_owned(), x.encode()));
        }
        proof {
            crate::json::lemma_jv_of_fields(fs@);
            assert(jv_of_fields(fs@) =~= (*self).wire_fields());
        }
        JsonValue::Object(fs)
    }

    fn decode(v: &JsonValue) -> (r: Result<Self, DecodeError>) {
        match v {
            JsonValue::Object(fields) => {
                let card = match get_req::<PaymentCard>(fields, "card") {
                    Ok(x) => x,
                    Err(e) => return Err(e),
                };
                let stored_credential = match get_opt::<StoredCredential>(fields, "stored_credential") {
                    Ok(x) => x,
                    Err(e) => return Err(e),
                };
                Ok(OrderPaymentSource { card, stored_credential })
            },
            _ => Err(DecodeError::WrongType("object".to_owned())),
        }
    }

    proof fn lemma_round_trip(t: Self, u: Self) {
        reveal_strlit("card");
        reveal_strlit("stored_credential");
        assert("card"@.len() == 4);
        assert("stored_credential"@.len() == 17);
        PaymentCard::lemma_round_trip(t.card, u.card);
        if let Some(x) = t.stored_credential {
            StoredCredential::lemma_round_trip(x, x);
        }
        if Self::decodes_to(t.encoding(), u) {
            if let (Some(x), Some(y)) = (t.stored_credential, u.stored_credential) {
                StoredCredential::lemma_round_trip(x, y);
            }
            assert(u.wire_fields() =~= t.wire_fields());
        }
    }
}

/// An order payload, used when creating an order.
#[derive(Debug, PartialEq)]
pub struct OrderPayload {
    /// The intent to capture or authorize payment for the order.
    pub intent: Intent,
    /// Deprecated. The customer who approves and pays for the order.
    pub payer: Option<Payer>,
    /// The purchase units: each establishes a contract between payer and
    /// payee.
    pub purchase_units: Vec<PurchaseUnit>,
    /// Customizes the payer experience during approval.
    pub application_context: Option<ApplicationContext>,
    /// The payment source.
    pub payment_source: Option<OrderPaymentSource>,
}

impl OrderPayload {
    /// The fields of this value's wire document, in emission order.
    pub open spec fn wire_fields(self) -> Seq<(Seq<char>, Jv)> {
        field_entry("intent"@, self.intent.encoding()) + opt_entry("payer"@, self.payer) + field_entry("purchase_units"@, self.purchase_units.encoding()) + opt_entry("application_context"@, self.application_context) + opt_entry("payment_source"@, self.payment_source)
    }

    /// Where the `intent` field stands in the wire document.
    proof fn lemma_lookup_intent(t: Self)
        ensures
            lookup(t.wire_fields(), "intent"@) == Some(t.intent.encoding()),
    {
        reveal_strlit("intent");
        reveal_strlit("payer");
        reveal_strlit("purchase_units");
        reveal_strlit("application_context");
        reveal_strlit("payment_source");
        assert("intent"@.len() == 6);
        assert("payer"@.len() == 5);
        assert("purchase_units"@.len() == 14);
        assert("application_context"@.len() == 19);
        assert("payment_source"@.len() == 14);
        assert("purchase_units"@[1] == 'u');
        assert("payment_source"@[1] == 'a');
    }

    /// Where the `payer` field stands in the wire document.
    proof fn lemma_lookup_payer(t: Self)
        ensures
            lookup(t.wire_fields(), "payer"@) == (match t.payer {
                Some(x) => Some(x.encoding()),
                None => None::<Jv>,
            }),
    {
        reveal_strlit("intent");
        reveal_strlit("payer");
        reveal_strlit("purchase_units");
        reveal_strlit("application_context");
        reveal_strlit("payment_source");
        assert("intent"@.len() == 6);
        assert("payer"@.len() == 5);
        assert("purchase_units"@.len() == 14);
        assert("application_context"@.len() == 19);
        assert("payment_source"@.len() == 14);
        assert("purchase_units"@[1] == 'u');
        assert("payment_source"@[1] == 'a');
    }

    /// Where the `purchase_units` field stands in the wire document.
    proof fn lemma_lookup_purchase_units(t: Self)
        ensures
            lookup(t.wire_fields(), "purchase_units"@) == Some(t.purchase_units.encoding()),
    {
        reveal_strlit("intent");
        reveal_strlit("payer");
        reveal_strlit("purchase_units");
        reveal_strlit("application_context");
        reveal_strlit("payment_source");
        assert("intent"@.len() == 6);
        assert("payer"@.len() == 5);
        assert("purchase_units"@.len() == 14);
        assert("application_context"@.len() == 19);
        assert("payment_source"@.len() == 14);
        assert("purchase_units"@[1] == 'u');
        assert("payment_source"@[1] == 'a');
    }

    /// Where the `application_context` field stands in the wire document.
    proof fn lemma_lookup_application_context(t: Self)
        ensures
            lookup(t.wire_fields(), "application_context"@) == (match t.application_context {
                Some(x) => Some(x.encoding()),
                None => None::<Jv>,
            }),
    {
        reveal_strlit("intent");
        reveal_strlit("payer");
        reveal_strlit("purchase_units");
        reveal_strlit("application_context");
        reveal_strlit("payment_source");
        assert("intent"@.len() == 6);
        assert("payer"@.len() == 5);
        assert("purchase_units"@.len() == 14);
        assert("application_context"@.len() == 19);
        assert("payment_source"@.len() == 14);
        assert("purchase_units"@[1] == 'u');
        assert("payment_source"@[1] == 'a');
    }

    /// Where the `payment_source` field stands in the wire document.
    proof fn lemma_lookup_payment_source(t: Self)
        ensures
            lookup(t.wire_fields(), "payment_source"@) == (match t.payment_source {
                Some(x) => Some(x.encoding()),
                None => None::<Jv>,
            }),
    {
        reveal_strlit("intent");
        reveal_strlit("payer");
        reveal_strlit("purchase_units");
        reveal_strlit("application_context");
        reveal_strlit("payment_source");
        assert("intent"@.len() == 6);
        assert("payer"@.len() == 5);
        assert("purchase_units"@.len() == 14);
        assert("application_context"@.len() == 19);
        assert("payment_source"@.len() == 14);
        assert("purchase_units"@[1] == 'u');
        assert("payment_source"@[1] == 'a');
    }

    /// Two values that decode from the same document put the same
    /// document back on the wire.
    #[verifier::rlimit(100)]
    proof fn lemma_encoding_agrees(t: Self, u: Self)
        requires
            <OrderPayload as WireCodec>::decodes_to(t.encoding(), u),
        ensures
            u.encoding() == t.encoding(),
    {
        Self::lemma_lookup_intent(t);
        Self::lemma_lookup_payer(t);
        Self::lemma_lookup_purchase_units(t);
        Self::lemma_lookup_application_context(t);
        Self::lemma_lookup_payment_source(t);
        Intent::lemma_round_trip(t.intent, u.intent);
        if let (Some(x), Some(y)) = (t.payer, u.payer) {
            Payer::lemma_round_trip(x, y);
        }
        <Vec<PurchaseUnit> as WireCodec>::lemma_round_trip(t.purchase_units, u.purchase_units);
        if let (Some(x), Some(y)) = (t.application_context, u.application_context) {
            ApplicationContext::lemma_round_trip(x, y);
        }
        if let (Some(x), Some(y)) = (t.payment_source, u.payment_source) {
            OrderPaymentSource::lemma_round_trip(x, y);
        }
        assert(field_entry("intent"@, u.intent.encoding()) == field_entry("intent"@, t.intent.encoding()));
        assert(opt_entry("payer"@, u.payer) == opt_entry("payer"@, t.payer));
        assert(field_entry("purchase_units"@, u.purchase_units.encoding()) == field_entry("purchase_units"@, t.purchase_units.encoding()));
        assert(opt_entry("application_context"@, u.application_context) == opt_entry("application_context"@, t.application_context));
        assert(opt_entry("payment_source"@, u.payment_source) == opt_entry("payment_source"@, t.payment_source));
        assert(u.wire_fields() == t.wire_fields());
    }
}

impl WireCodec for OrderPayload {
    open spec fn encoding(self) -> Jv {
        Jv::Object(self.wire_fields())
    }

    open spec fn can_decode(v: Jv) -> bool {
        match v {
            Jv::Object(fs) => {
                &&& req_ok::<Intent>(fs, "intent"@)
                &&& opt_ok::<Payer>(fs, "payer"@)
                &&& req_ok::<Vec<PurchaseUnit>>(fs, "purchase_units"@)
                &&& opt_ok::<ApplicationContext>(fs, "application_context"@)
                &&& opt_ok::<OrderPaymentSource>(fs, "payment_source"@)
            },
            _ => false,
        }
    }

    open spec fn decodes_to(v: Jv, t: Self) -> bool {
        match v {
            Jv::Object(fs) => {
                &&& req_rel::<Intent>(fs, "intent"@, t.intent)
                &&& opt_rel::<Payer>(fs, "payer"@, t.payer)
                &&& req_rel::<Vec<PurchaseUnit>>(fs, "purchase_units"@, t.purchase_units)
                &&& opt_rel::<ApplicationContext>(fs, "application_context"@, t.application_context)
                &&& opt_rel::<OrderPaymentSource>(fs, "payment_source"@, t.payment_source)
            },
            _ => false,
        }
    }

    #[verifier::rlimit(100)]
    fn encode(&self) -> (r: JsonValue) {
        let mut fs: Vec<(String, JsonValue)> = Vec::new();
        push_req(&mut fs, "intent", &self.intent);
        push_opt(&mut fs, "payer", &self.payer);
        push_req(&mut fs, "purchase_units", &self.purchase_units);
        push_opt(&mut fs, "application_context", &self.application_context);
        push_opt(&mut fs, "payment_source", &self.payment_source);
        proof {
            crate::json::lemma_concat_left_empty(field_entry("intent"@, (*self).intent.encoding()));
            assert(jv_of_fields(fs@) == (*self).wire_fields());
        }
        JsonValue::Object(fs)
    }

    fn decode(v: &JsonValue) -> (r: Result<Self, DecodeError>) {
        match v {
            JsonValue::Object(fields) => {
                let intent = match get_req::<Intent>(fields, "intent") {
                    Ok(x) => x,
                    Err(e) => return Err(e),
                };
                let payer = match get_opt::<Payer>(fields, "payer") {
                    Ok(x) => x,
                    Err(e) => return Err(e),
                };
                let purchase_units = match get_req::<Vec<PurchaseUnit>>(fields, "purchase_units") {
                    Ok(x) => x,
                    Err(e) => return Err(e),
                };
                let application_context = match get_opt::<ApplicationContext>(fields, "application_context") {
                    Ok(x) => x,
                    Err(e) => return Err(e),
                };
                let payment_source = match get_opt::<OrderPaymentSource>(fields, "payment_source") {
                    Ok(x) => x,
                    Err(e) => return Err(e),
                };
                Ok(OrderPayload { intent, payer, purchase_units, application_context, payment_source })
            },
            _ => Err(DecodeError::WrongType("object".to_owned())),
        }
    }

    #[verifier::rlimit(100)]
    proof fn lemma_round_trip(t: Self, u: Self) {
        Self::lemma_lookup_intent(t);
        Self::lemma_lookup_payer(t);
        Self::lemma_lookup_purchase_units(t);
        Self::lemma_lookup_application_context(t);
        Self::lemma_lookup_payment_source(t);
        Intent::lemma_round_trip(t.intent, t.intent);
        if let Some(x) = t.payer {
            Payer::lemma_round_trip(x, x);
        }
        <Vec<PurchaseUnit> as WireCodec>::lemma_round_trip(t.purchase_units, t.purchase_units);
        if let Some(x) = t.application_context {
            ApplicationContext::lemma_round_trip(x, x);
        }
        if let Some(x) = t.payment_source {
            OrderPaymentSource::lemma_round_trip(x, x);
        }
        if Self::decodes_to(t.encoding(), u) {
            Self::lemma_encoding_agrees(t, u);
        }
    }
}

/// The card brand or network.
#[derive(Debug, Clone, Copy, PartialEq, Eq)]
pub enum CardBrand {
    /// Visa card.
    Visa,
    /// Mastercard card.
    Mastercard,
    /// Discover card.
    Discover,
    /// American Express card.
    Amex,
    /// Solo debit card.
    Solo,
    /// Japan Credit Bureau card.
    JCB,
    /// Military Star card.
    Star,
    /// Delta Airlines card.
    Delta,
    /// Switch credit card.
    Switch,
    /// Maestro credit card.
    Maestro,
    /// Carte Bancaire (CB) credit card.
    CbNationale,
    /// Configoga credit card.
    Configoga,
    /// Confidis credit card.
    Confidis,
    /// Visa Electron credit card.
    Electron,
    /// Cetelem credit card.
    Cetelem,
    /// China UnionPay credit card.
    ChinaUnionPay,
}

impl CardBrand {
    /// The wire token of this value.
    pub open spec fn spec_token(self) -> Seq<char> {
        match self {
            CardBrand::Visa => "VISA"@,
            CardBrand::Mastercard => "MASTERCARD"@,
            CardBrand::Discover => "DISCOVER"@,
            CardBrand::Amex => "AMEX"@,
            CardBrand::Solo => "SOLO"@,
            CardBrand::JCB => "JCB"@,
            CardBrand::Star => "STAR"@,
            CardBrand::Delta => "DELTA"@,
            CardBrand::Switch => "SWITCH"@,
            CardBrand::Maestro => "MAESTRO"@,
            CardBrand::CbNationale => "CB_NATIONALE"@,
            CardBrand::Configoga => "CONFIGOGA"@,
            CardBrand::Confidis => "CONFIDIS"@,
            CardBrand::Electron => "ELECTRON"@,
            CardBrand::Cetelem => "CETELEM"@,
            CardBrand::ChinaUnionPay => "CHINA_UNION_PAY"@,
        }
    }

    /// Whether `s` is one of the documented tokens.
    pub open spec fn spec_is_token(s: Seq<char>) -> bool {
        ||| s == "VISA"@
        ||| s == "MASTERCARD"@
        ||| s == "DISCOVER"@
        ||| s == "AMEX"@
        ||| s == "SOLO"@
        ||| s == "JCB"@
        ||| s == "STAR"@
        ||| s == "DELTA"@
        ||| s == "SWITCH"@
        ||| s == "MAESTRO"@
        ||| s == "CB_NATIONALE"@
        ||| s == "CONFIGOGA"@
        ||| s == "CONFIDIS"@
        ||| s == "ELECTRON"@
        ||| s == "CETELEM"@
        ||| s == "CHINA_UNION_PAY"@
    }
}

impl WireCodec for CardBrand {
    open spec fn encoding(self) -> Jv {
        Jv::Str(self.spec_token())
    }

    open spec fn can_decode(v: Jv) -> bool {
        match v {
            Jv::Str(s) => CardBrand::spec_is_token(s),
            _ => false,
        }
    }

    open spec fn decodes_to(v: Jv, t: Self) -> bool {
        v == Jv::Str(t.spec_token())
    }

    fn encode(&self) -> (r: JsonValue) {
        let tok = match self {
            CardBrand::Visa => "VISA",
            CardBrand::Mastercard => "MASTERCARD",
            CardBrand::Discover => "DISCOVER",
            CardBrand::Amex => "AMEX",
            CardBrand::Solo => "SOLO",
            CardBrand::JCB => "JCB",
            CardBrand::Star => "STAR",
            CardBrand::Delta => "DELTA",
            CardBrand::Switch => "SWITCH",
            CardBrand::Maestro => "MAESTRO",
            CardBrand::CbNationale => "CB_NATIONALE",
            CardBrand::Configoga => "CONFIGOGA",
            CardBrand::Confidis => "CONFIDIS",
            CardBrand::Electron => "ELECTRON",
            CardBrand::Cetelem => "CETELEM",
            CardBrand::ChinaUnionPay => "CHINA_UNION_PAY",
        };
        JsonValue::Str(tok.to_owned())
    }

    fn decode(v: &JsonValue) -> (r: Result<Self, DecodeError>)
        ensures
            match r {
                Err(DecodeError::UnknownToken(s)) => v@ == Jv::Str(s@)
                    && !CardBrand::spec_is_token(s@),
                Err(DecodeError::WrongType(_)) => !(v@ is Str),
                Err(DecodeError::MissingField(_)) => false,
                Ok(_) => true,
            },
    {
        match v {
            JsonValue::Str(s) => {
                let c = s.as_str();
                if str_eq(c, "VISA") {
                    Ok(CardBrand::Visa)
                } else if str_eq(c, "MASTERCARD") {
                    Ok(CardBrand::Mastercard)
                } else if str_eq(c, "DISCOVER") {
                    Ok(CardBrand::Discover)
                } else if str_eq(c, "AMEX") {
                    Ok(CardBrand::Amex)
                } else if str_eq(c, "SOLO") {
                    Ok(CardBrand::Solo)
                } else if str_eq(c, "JCB") {
                    Ok(CardBrand::JCB)
                } else if str_eq(c, "STAR") {
                    Ok(CardBrand::Star)
                } else if str_eq(c, "DELTA") {
                    Ok(CardBrand::Delta)
                } else if str_eq(c, "SWITCH") {
                    Ok(CardBrand::Switch)
                } else if str_eq(c, "MAESTRO") {
                    Ok(CardBrand::Maestro)
                } else if str_eq(c, "CB_NATIONALE") {
                    Ok(CardBrand::CbNationale)
                } else if str_eq(c, "CONFIGOGA") {
                    Ok(CardBrand::Configoga)
                } else if str_eq(c, "CONFIDIS") {
                    Ok(CardBrand::Confidis)
                } else if str_eq(c, "ELECTRON") {
                    Ok(CardBrand::Electron)
                } else if str_eq(c, "CETELEM") {
                    Ok(CardBrand::Cetelem)
                } else if str_eq(c, "CHINA_UNION_PAY") {
                    Ok(CardBrand::ChinaUnionPay)
                } else {
                    Err(DecodeError::UnknownToken(s.clone()))
                }
            },
            _ => Err(DecodeError::WrongType("string".to_owned())),
        }
    }

    proof fn lemma_round_trip(t: Self, u: Self) {
    }
}

/// The payment card type.
#[derive(Debug, Clone, Copy, PartialEq, Eq)]
pub enum CardType {
    /// A credit card.
    Credit,
    /// A debit card.
    Debit,
    /// A prepaid card.
    Prepaid,
    /// A card of unknown type.
    Unknown,
}

impl CardType {
    /// The wire token of this value.
    pub open spec fn spec_token(self) -> Seq<char> {
        match self {
            CardType::Credit => "CREDIT"@,
            CardType::Debit => "DEBIT"@,
            CardType::Prepaid => "PREPAID"@,
            CardType::Unknown => "UNKNOWN"@,
        }
    }

    /// Whether `s` is one of the documented tokens.
    pub open spec fn spec_is_token(s: Seq<char>) -> bool {
        ||| s == "CREDIT"@
        ||| s == "DEBIT"@
        ||| s == "PREPAID"@
        ||| s == "UNKNOWN"@
    }
}

impl WireCodec for CardType {
    open spec fn encoding(self) -> Jv {
        Jv::Str(self.spec_token())
    }

    open spec fn can_decode(v: Jv) -> bool {
        match v {
            Jv::Str(s) => CardType::spec_is_token(s),
            _ => false,
        }
    }

    open spec fn decodes_to(v: Jv, t: Self) -> bool {
        v == Jv::Str(t.spec_token())
    }

    fn encode(&self) -> (r: JsonValue) {
        let tok = match self {
            CardType::Credit => "CREDIT",
            CardType::Debit => "DEBIT",
            CardType::Prepaid => "PREPAID",
            CardType::Unknown => "UNKNOWN",
        };
        JsonValue::Str(tok.to_owned())
    }

    fn decode(v: &JsonValue) -> (r: Result<Self, DecodeError>)
        ensures
            match r {
                Err(DecodeError::UnknownToken(s)) => v@ == Jv::Str(s@)
                    && !CardType::spec_is_token(s@),
                Err(DecodeError::WrongType(_)) => !(v@ is Str),
                Err(DecodeError::MissingField(_)) => false,
                Ok(_) => true,
            },
    {
        match v {
            JsonValue::Str(s) => {
                let c = s.as_str();
                if str_eq(c, "CREDIT") {
                    Ok(CardType::Credit)
                } else if str_eq(c, "DEBIT") {
                    Ok(CardType::Debit)
                } else if str_eq(c, "PREPAID") {
                    Ok(CardType::Prepaid)
                } else if str_eq(c, "UNKNOWN") {
                    Ok(CardType::Unknown)
                } else {
                    Err(DecodeError::UnknownToken(s.clone()))
                }
            },
            _ => Err(DecodeError::WrongType("string".to_owned())),
        }
    }

    proof fn lemma_round_trip(t: Self, u: Self) {
    }
}

/// The payment card used to fund a payment.
#[derive(Debug, Clone, PartialEq)]
pub struct CardResponse {
    /// The last digits of the payment card.
    pub last_digits: String,
    /// The card brand or network.
    pub brand: CardBrand,
    /// The payment card type (its wire name is `type`).
    pub card_type: CardType,
}

impl CardResponse {
    /// The fields of this value's wire document, in emission order.
    pub open spec fn wire_fields(self) -> Seq<(Seq<char>, Jv)> {
        field_entry("last_digits"@, self.last_digits.encoding()) + field_entry("brand"@, self.brand.encoding()) + field_entry("type"@, self.card_type.encoding())
    }
}

impl WireCodec for CardResponse {
    open spec fn encoding(self) -> Jv {
        Jv::Object(self.wire_fields())
    }

    open spec fn can_decode(v: Jv) -> bool {
        match v {
            Jv::Object(fs) => {
                &&& req_ok::<String>(fs, "last_digits"@)
                &&& req_ok::<CardBrand>(fs, "brand"@)
                &&& req_ok::<CardType>(fs, "type"@)
            },
            _ => false,
        }
    }

    open spec fn decodes_to(v: Jv, t: Self) -> bool {
        match v {
            Jv::Object(fs) => {
                &&& req_rel::<String>(fs, "last_digits"@, t.last_digits)
                &&& req_rel::<CardBrand>(fs, "brand"@, t.brand)
                &&& req_rel::<CardType>(fs, "type"@, t.card_type)
            },
            _ => false,
        }
    }

    fn encode(&self) -> (r: JsonValue) {
        let mut fs: Vec<(String, JsonValue)> = Vec::new();
        fs.push(("last_digits".to_owned(), self.last_digits.encode()));
        fs.push(("brand".to_owned(), self.brand.encode()));
        fs.push(("type".to_owned(), self.card_type.encode()));
        proof {
            crate::json::lemma_jv_of_fields(fs@);
            assert(jv_of_fields(fs@) =~= (*self).wire_fields());
        }
        JsonValue::Object(fs)
    }

    fn decode(v: &JsonValue) -> (r: Result<Self, DecodeError>) {
        match v {
            JsonValue::Object(fields) => {
                let last_digits = match get_req::<String>(fields, "last_digits") {
                    Ok(x) => x,
                    Err(e) => return Err(e),
                };
                let brand = match get_req::<CardBrand>(fields, "brand") {
                    Ok(x) => x,
                    Err(e) => return Err(e),
                };
                let card_type = match get_req::<CardType>(fields, "type") {
                    Ok(x) => x,
                    Err(e) => return Err(e),
                };
                Ok(CardResponse { last_digits, brand, card_type })
            },
            _ => Err(DecodeError::WrongType("object".to_owned())),
        }
    }

    proof fn lemma_round_trip(t: Self, u: Self) {
        reveal_strlit("last_digits");
        reveal_strlit("brand");
        reveal_strlit("type");
        assert("last_digits"@.len() == 11);
        assert("brand"@.len() == 5);
        assert("type"@.len() == 4);
        CardBrand::lemma_round_trip(t.brand, u.brand);
        CardType::lemma_round_trip(t.card_type, u.card_type);
        if Self::decodes_to(t.encoding(), u) {
            assert(u.wire_fields() =~= t.wire_fields());
        }
    }
}

/// The customer's wallet used to fund the transaction.
#[derive(Debug, Clone, PartialEq)]
pub struct WalletResponse {
    /// Apple Pay wallet response information.
    pub apple_pay: CardResponse,
}

impl WalletResponse {
    /// The fields of this value's wire document, in emission order.
    pub open spec fn wire_fields(self) -> Seq<(Seq<char>, Jv)> {
        field_entry("apple_pay"@, self.apple_pay.encoding())
    }
}

impl WireCodec for WalletResponse {
    open spec fn encoding(self) -> Jv {
        Jv::Object(self.wire_fields())
    }

    open spec fn can_decode(v: Jv) -> bool {
        match v {
            Jv::Object(fs) => {
                &&& req_ok::<CardResponse>(fs, "apple_pay"@)
            },
            _ => false,
        }
    }

    open spec fn decodes_to(v: Jv, t: Self) -> bool {
        match v {
            Jv::Object(fs) => {
                &&& req_rel::<CardResponse>(fs, "apple_pay"@, t.apple_pay)
            },
            _ => false,
        }
    }

    fn encode(&self) -> (r: JsonValue) {
        let mut fs: Vec<(String, JsonValue)> = Vec::new();
        fs.push(("apple_pay".to_owned(), self.apple_pay.encode()));
        proof {
            crate::json::lemma_jv_of_fields(fs@);
            assert(jv_of_fields(fs@) =~= (*self).wire_fields());
        }
        JsonValue::Object(fs)
    }

    fn decode(v: &JsonValue) -> (r: Result<Self, DecodeError>) {
        match v {
            JsonValue::Object(fields) => {
                let apple_pay = match get_req::<CardResponse>(fields, "apple_pay") {
                    Ok(x) => x,
                    Err(e) => return Err(e),
                };
                Ok(WalletResponse { apple_pay })
            },
            _ => Err(DecodeError::WrongType("object".to_owned())),
        }
    }

    proof fn lemma_round_trip(t: Self, u: Self) {
        reveal_strlit("apple_pay");
        assert("apple_pay"@.len() == 9);
        CardResponse::lemma_round_trip(t.apple_pay, u.apple_pay);
        if Self::decodes_to(t.encoding(), u) {
            assert(u.wire_fields() =~= t.wire_fields());
        }
    }
}

/// The PayPal account used to fund the transaction.
#[derive(Debug, Clone, PartialEq)]
pub struct PaypalPaymentSourceResponse {
    /// The name of the payer.
    pub name: PayerName,
    /// The email address of the payer.
    pub email_address: String,
    /// The account ID of the payer.
    pub account_id: String,
}

impl PaypalPaymentSourceResponse {
    /// The fields of this value's wire document, in emission order.
    pub open spec fn wire_fields(self) -> Seq<(Seq<char>, Jv)> {
        field_entry("name"@, self.name.encoding()) + field_entry("email_address"@, self.email_address.encoding()) + field_entry("account_id"@, self.account_id.encoding())
    }
}

impl WireCodec for PaypalPaymentSourceResponse {
    open spec fn encoding(self) -> Jv {
        Jv::Object(self.wire_fields())
    }

    open spec fn can_decode(v: Jv) -> bool {
        match v {
            Jv::Object(fs) => {
                &&& req_ok::<PayerName>(fs, "name"@)
                &&& req_ok::<String>(fs, "email_address"@)
                &&& req_ok::<String>(fs, "account_id"@)
            },
            _ => false,
        }
    }

    open spec fn decodes_to(v: Jv, t: Self) -> bool {
        match v {
            Jv::Object(fs) => {
                &&& req_rel::<PayerName>(fs, "name"@, t.name)
                &&& req_rel::<String>(fs, "email_address"@, t.email_address)
                &&& req_rel::<String>(fs, "account_id"@, t.account_id)
            },
            _ => false,
        }
    }

    fn encode(&self) -> (r: JsonValue) {
        let mut fs: Vec<(String, JsonValue)> = Vec::new();
        fs.push(("name".to_owned(), self.name.encode()));
        fs.push(("email_address".to_owned(), self.email_address.encode()));
        fs.push(("account_id".to_owned(), self.account_id.encode()));
        proof {
            crate::json::lemma_jv_of_fields(fs@);
            assert(jv_of_fields(fs@) =~= (*self).wire_fields());
        }
        JsonValue::Object(fs)
    }

    fn decode(v: &JsonValue) -> (r: Result<Self, DecodeError>) {
        match v {
            JsonValue::Object(fields) => {
                let name = match get_req::<PayerName>(fields, "name") {
                    Ok(x) => x,
                    Err(e) => return Err(e),
                };
                let email_address = match get_req::<String>(fields, "email_address") {
                    Ok(x) => x,
                    Err(e) => return Err(e),
                };
                let account_id = match get_req::<String>(fields, "account_id") {
                    Ok(x) => x,
                    Err(e) => return Err(e),
                };
                Ok(PaypalPaymentSourceResponse { name, email_address, account_id })
            },
            _ => Err(DecodeError::WrongType("object".to_owned())),
        }
    }

    proof fn lemma_round_trip(t: Self, u: Self) {
        reveal_strlit("name");
        reveal_strlit("email_address");
        reveal_strlit("account_id");
        assert("name"@.len() == 4);
        assert("email_address"@.len() == 13);
        assert("account_id"@.len() == 10);
        PayerName::lemma_round_trip(t.name, u.name);
        if Self::decodes_to(t.encoding(), u) {
            assert(u.wire_fields() =~= t.wire_fields());
        }
    }
}

/// The payment source used to fund a payment.  The funding instruments are a
/// tagged union on the wire; each is carried here as an opaque JSON document.
#[derive(Debug, PartialEq)]
pub struct PaymentSourceResponse {
    /// The payment card used to fund the payment.
    pub card: Option<JsonValue>,
    /// Information used to pay with Bancontact.
    pub bancontact: Option<JsonValue>,
    /// Information used to pay with BLIK.
    pub blik: Option<JsonValue>,
    /// Information used to pay with eps.
    pub eps: Option<JsonValue>,
    /// Information used to pay with giropay.
    pub giropay: Option<JsonValue>,
    /// Information used to pay with iDEAL.
    pub ideal: Option<JsonValue>,
    /// Information used to pay with MyBank.
    pub mybank: Option<JsonValue>,
    /// Information used to pay with P24 (Przelewy24).
    pub p24: Option<JsonValue>,
    /// Information used to pay with Sofort.
    pub sofort: Option<JsonValue>,
    /// Information used to pay with Trustly.
    pub trustly: Option<JsonValue>,
    /// The Venmo wallet response.
    pub venmo: Option<JsonValue>,
    /// The PayPal wallet response.
    pub paypal: Option<JsonValue>,
    /// Information used to pay with Apple Pay.
    pub apple_pay: Option<JsonValue>,
    /// Google Pay wallet payment data.
    pub google_pay: Option<JsonValue>,
}

impl PaymentSourceResponse {
    /// The fields of this value's wire document, in emission order.
    pub open spec fn wire_fields(self) -> Seq<(Seq<char>, Jv)> {
        opt_entry("card"@, self.card) + opt_entry("bancontact"@, self.bancontact) + opt_entry("blik"@, self.blik) + opt_entry("eps"@, self.eps) + opt_entry("giropay"@, self.giropay) + opt_entry("ideal"@, self.ideal) + opt_entry("mybank"@, self.mybank) + opt_entry("p24"@, self.p24) + opt_entry("sofort"@, self.sofort) + opt_entry("trustly"@, self.trustly) + opt_entry("venmo"@, self.venmo) + opt_entry("paypal"@, self.paypal) + opt_entry("apple_pay"@, self.apple_pay) + opt_entry("google_pay"@, self.google_pay)
    }

    /// Where the `card` field stands in the wire document.
    proof fn lemma_lookup_card(t: Self)
        ensures
            lookup(t.wire_fields(), "card"@) == (match t.card {
                Some(x) => Some(x.encoding()),
                None => None::<Jv>,
            }),
    {
        reveal_strlit("card");
        reveal_strlit("bancontact");
        reveal_strlit("blik");
        reveal_strlit("eps");
        reveal_strlit("giropay");
        reveal_strlit("ideal");
        reveal_strlit("mybank");
        reveal_strlit("p24");
        reveal_strlit("sofort");
        reveal_strlit("trustly");
        reveal_strlit("venmo");
        reveal_strlit("paypal");
        reveal_strlit("apple_pay");
        reveal_strlit("google_pay");
        assert("card"@.len() == 4);
        assert("bancontact"@.len() == 10);
        assert("blik"@.len() == 4);
        assert("eps"@.len() == 3);
        assert("giropay"@.len() == 7);
        assert("ideal"@.len() == 5);
        assert("mybank"@.len() == 6);
        assert("p24"@.len() == 3);
        assert("sofort"@.len() == 6);
        assert("trustly"@.len() == 7);
        assert("venmo"@.len() == 5);
        assert("paypal"@.len() == 6);
        assert("apple_pay"@.len() == 9);
        assert("google_pay"@.len() == 10);
        assert("card"@[0] == 'c');
        assert("blik"@[0] == 'b');
        assert("bancontact"@[0] == 'b');
        assert("google_pay"@[0] == 'g');
        assert("eps"@[0] == 'e');
        assert("p24"@[0] == 'p');
        assert("giropay"@[0] == 'g');
        assert("trustly"@[0] == 't');
        assert("ideal"@[0] == 'i');
        assert("venmo"@[0] == 'v');
        assert("mybank"@[0] == 'm');
        assert("sofort"@[0] == 's');
        assert("paypal"@[0] == 'p');
    }

    /// Where the `bancontact` field stands in the wire document.
    proof fn lemma_lookup_bancontact(t: Self)
        ensures
            lookup(t.wire_fields(), "bancontact"@) == (match t.bancontact {
                Some(x) => Some(x.encoding()),
                None => None::<Jv>,
            }),
    {
        reveal_strlit("card");
        reveal_strlit("bancontact");
        reveal_strlit("blik");
        reveal_strlit("eps");
        reveal_strlit("giropay");
        reveal_strlit("ideal");
        reveal_strlit("mybank");
        reveal_strlit("p24");
        reveal_strlit("sofort");
        reveal_strlit("trustly");
        reveal_strlit("venmo");
        reveal_strlit("paypal");
        reveal_strlit("apple_pay");
        reveal_strlit("google_pay");
        assert("card"@.len() == 4);
        assert("bancontact"@.len() == 10);
        assert("blik"@.len() == 4);
        assert("eps"@.len() == 3);
        assert("giropay"@.len() == 7);
        assert("ideal"@.len() == 5);
        assert("mybank"@.len() == 6);
        assert("p24"@.len() == 3);
        assert("sofort"@.len() == 6);
        assert("trustly"@.len() == 7);
        assert("venmo"@.len() == 5);
        assert("paypal"@.len() == 6);
        assert("apple_pay"@.len() == 9);
        assert("google_pay"@.len() == 10);
        assert("card"@[0] == 'c');
        assert("blik"@[0] == 'b');
        assert("bancontact"@[0] == 'b');
        assert("google_pay"@[0] == 'g');
        assert("eps"@[0] == 'e');
        assert("p24"@[0] == 'p');
        assert("giropay"@[0] == 'g');
        assert("trustly"@[0] == 't');
        assert("ideal"@[0] == 'i');
        assert("venmo"@[0] == 'v');
        assert("mybank"@[0] == 'm');
        assert("sofort"@[0] == 's');
        assert("paypal"@[0] == 'p');
    }

    /// Where the `blik` field stands in the wire document.
    proof fn lemma_lookup_blik(t: Self)
        ensures
            lookup(t.wire_fields(), "blik"@) == (match t.blik {
                Some(x) => Some(x.encoding()),
                None => None::<Jv>,
            }),
    {
        reveal_strlit("card");
        reveal_strlit("bancontact");
        reveal_strlit("blik");
        reveal_strlit("eps");
        reveal_strlit("giropay");
        reveal_strlit("ideal");
        reveal_strlit("mybank");
        reveal_strlit("p24");
        reveal_strlit("sofort");
        reveal_strlit("trustly");
        reveal_strlit("venmo");
        reveal_strlit("paypal");
        reveal_strlit("apple_pay");
        reveal_strlit("google_pay");
        assert("card"@.len() == 4);
        assert("bancontact"@.len() == 10);
        assert("blik"@.len() == 4);
        assert("eps"@.len() == 3);
        assert("giropay"@.len() == 7);
        assert("ideal"@.len() == 5);
        assert("mybank"@.len() == 6);
        assert("p24"@.len() == 3);
        assert("sofort"@.len() == 6);
        assert("trustly"@.len() == 7);
        assert("venmo"@.len() == 5);
        assert("paypal"@.len() == 6);
        assert("apple_pay"@.len() == 9);
        assert("google_pay"@.len() == 10);
        assert("card"@[0] == 'c');
        assert("blik"@[0] == 'b');
        assert("bancontact"@[0] == 'b');
        assert("google_pay"@[0] == 'g');
        assert("eps"@[0] == 'e');
        assert("p24"@[0] == 'p');
        assert("giropay"@[0] == 'g');
        assert("trustly"@[0] == 't');
        assert("ideal"@[0] == 'i');
        assert("venmo"@[0] == 'v');
        assert("mybank"@[0] == 'm');
        assert("sofort"@[0] == 's');
        assert("paypal"@[0] == 'p');
    }

    /// Where the `eps` field stands in the wire document.
    proof fn lemma_lookup_eps(t: Self)
        ensures
            lookup(t.wire_fields(), "eps"@) == (match t.eps {
                Some(x) => Some(x.encoding()),
                None => None::<Jv>,
            }),
    {
        reveal_strlit("card");
        reveal_strlit("bancontact");
        reveal_strlit("blik");
        reveal_strlit("eps");
        reveal_strlit("giropay");
        reveal_strlit("ideal");
        reveal_strlit("mybank");
        reveal_strlit("p24");
        reveal_strlit("sofort");
        reveal_strlit("trustly");
        reveal_strlit("venmo");
        reveal_strlit("paypal");
        reveal_strlit("apple_pay");
        reveal_strlit("google_pay");
        assert("card"@.len() == 4);
        assert("bancontact"@.len() == 10);
        assert("blik"@.len() == 4);
        assert("eps"@.len() == 3);
        assert("giropay"@.len() == 7);
        assert("ideal"@.len() == 5);
        assert("mybank"@.len() == 6);
        assert("p24"@.len() == 3);
        assert("sofort"@.len() == 6);
        assert("trustly"@.len() == 7);
        assert("venmo"@.len() == 5);
        assert("paypal"@.len() == 6);
        assert("apple_pay"@.len() == 9);
        assert("google_pay"@.len() == 10);
        assert("card"@[0] == 'c');
        assert("blik"@[0] == 'b');
        assert("bancontact"@[0] == 'b');
        assert("google_pay"@[0] == 'g');
        assert("eps"@[0] == 'e');
        assert("p24"@[0] == 'p');
        assert("giropay"@[0] == 'g');
        assert("trustly"@[0] == 't');
        assert("ideal"@[0] == 'i');
        assert("venmo"@[0] == 'v');
        assert("mybank"@[0] == 'm');
        assert("sofort"@[0] == 's');
        assert("paypal"@[0] == 'p');
    }

    /// Where the `giropay` field stands in the wire document.
    proof fn lemma_lookup_giropay(t: Self)
        ensures
            lookup(t.wire_fields(), "giropay"@) == (match t.giropay {
                Some(x) => Some(x.encoding()),
                None => None::<Jv>,
            }),
    {
        reveal_strlit("card");
        reveal_strlit("bancontact");
        reveal_strlit("blik");
        reveal_strlit("eps");
        reveal_strlit("giropay");
        reveal_strlit("ideal");
        reveal_strlit("mybank");
        reveal_strlit("p24");
        reveal_strlit("sofort");
        reveal_strlit("trustly");
        reveal_strlit("venmo");
        reveal_strlit("paypal");
        reveal_strlit("apple_pay");
        reveal_strlit("google_pay");
        assert("card"@.len() == 4);
        assert("bancontact"@.len() == 10);
        assert("blik"@.len() == 4);
        assert("eps"@.len() == 3);
        assert("giropay"@.len() == 7);
        assert("ideal"@.len() == 5);
        assert("mybank"@.len() == 6);
        assert("p24"@.len() == 3);
        assert("sofort"@.len() == 6);
        assert("trustly"@.len() == 7);
        assert("venmo"@.len() == 5);
        assert("paypal"@.len() == 6);
        assert("apple_pay"@.len() == 9);
        assert("google_pay"@.len() == 10);
        assert("card"@[0] == 'c');
        assert("blik"@[0] == 'b');
        assert("bancontact"@[0] == 'b');
        assert("google_pay"@[0] == 'g');
        assert("eps"@[0] == 'e');
        assert("p24"@[0] == 'p');
        assert("giropay"@[0] == 'g');
        assert("trustly"@[0] == 't');
        assert("ideal"@[0] == 'i');
        assert("venmo"@[0] == 'v');
        assert("mybank"@[0] == 'm');
        assert("sofort"@[0] == 's');
        assert("paypal"@[0] == 'p');
    }

    /// Where the `ideal` field stands in the wire document.
    proof fn lemma_lookup_ideal(t: Self)
        ensures
            lookup(t.wire_fields(), "ideal"@) == (match t.ideal {
                Some(x) => Some(x.encoding()),
                None => None::<Jv>,
            }),
    {
        reveal_strlit("card");
        reveal_strlit("bancontact");
        reveal_strlit("blik");
        reveal_strlit("eps");
        reveal_strlit("giropay");
        reveal_strlit("ideal");
        reveal_strlit("mybank");
        reveal_strlit("p24");
        reveal_strlit("sofort");
        reveal_strlit("trustly");
        reveal_strlit("venmo");
        reveal_strlit("paypal");
        reveal_strlit("apple_pay");
        reveal_strlit("google_pay");
        assert("card"@.len() == 4);
        assert("bancontact"@.len() == 10);
        assert("blik"@.len() == 4);
        assert("eps"@.len() == 3);
        assert("giropay"@.len() == 7);
        assert("ideal"@.len() == 5);
        assert("mybank"@.len() == 6);
        assert("p24"@.len() == 3);
        assert("sofort"@.len() == 6);
        assert("trustly"@.len() == 7);
        assert("venmo"@.len() == 5);
        assert("paypal"@.len() == 6);
        assert("apple_pay"@.len() == 9);
        assert("google_pay"@.len() == 10);
        assert("card"@[0] == 'c');
        assert("blik"@[0] == 'b');
        assert("bancontact"@[0] == 'b');
        assert("google_pay"@[0] == 'g');
        assert("eps"@[0] == 'e');
        assert("p24"@[0] == 'p');
        assert("giropay"@[0] == 'g');
        assert("trustly"@[0] == 't');
        assert("ideal"@[0] == 'i');
        assert("venmo"@[0] == 'v');
        assert("mybank"@[0] == 'm');
        assert("sofort"@[0] == 's');
        assert("paypal"@[0] == 'p');
    }

    /// Where the `mybank` field stands in the wire document.
    proof fn lemma_lookup_mybank(t: Self)
        ensures
            lookup(t.wire_fields(), "mybank"@) == (match t.mybank {
                Some(x) => Some(x.encoding()),
                None => None::<Jv>,
            }),
    {
        reveal_strlit("card");
        reveal_strlit("bancontact");
        reveal_strlit("blik");
        reveal_strlit("eps");
        reveal_strlit("giropay");
        reveal_strlit("ideal");
        reveal_strlit("mybank");
        reveal_strlit("p24");
        reveal_strlit("sofort");
        reveal_strlit("trustly");
        reveal_strlit("venmo");
        reveal_strlit("paypal");
        reveal_strlit("apple_pay");
        reveal_strlit("google_pay");
        assert("card"@.len() == 4);
        assert("bancontact"@.len() == 10);
        assert("blik"@.len() == 4);
        assert("eps"@.len() == 3);
        assert("giropay"@.len() == 7);
        assert("ideal"@.len() == 5);
        assert("mybank"@.len() == 6);
        assert("p24"@.len() == 3);
        assert("sofort"@.len() == 6);
        assert("trustly"@.len() == 7);
        assert("venmo"@.len() == 5);
        assert("paypal"@.len() == 6);
        assert("apple_pay"@.len() == 9);
        assert("google_pay"@.len() == 10);
        assert("card"@[0] == 'c');
        assert("blik"@[0] == 'b');
        assert("bancontact"@[0] == 'b');
        assert("google_pay"@[0] == 'g');
        assert("eps"@[0] == 'e');
        assert("p24"@[0] == 'p');
        assert("giropay"@[0] == 'g');
        assert("trustly"@[0] == 't');
        assert("ideal"@[0] == 'i');
        assert("venmo"@[0] == 'v');
        assert("mybank"@[0] == 'm');
        assert("sofort"@[0] == 's');
        assert("paypal"@[0] == 'p');
    }

    /// Where the `p24` field stands in the wire document.
    proof fn lemma_lookup_p24(t: Self)
        ensures
            lookup(t.wire_fields(), "p24"@) == (match t.p24 {
                Some(x) => Some(x.encoding()),
                None => None::<Jv>,
            }),
    {
        reveal_strlit("card");
        reveal_strlit("bancontact");
        reveal_strlit("blik");
        reveal_strlit("eps");
        reveal_strlit("giropay");
        reveal_strlit("ideal");
        reveal_strlit("mybank");
        reveal_strlit("p24");
        reveal_strlit("sofort");
        reveal_strlit("trustly");
        reveal_strlit("venmo");
        reveal_strlit("paypal");
        reveal_strlit("apple_pay");
        reveal_strlit("google_pay");
        assert("card"@.len() == 4);
        assert("bancontact"@.len() == 10);
        assert("blik"@.len() == 4);
        assert("eps"@.len() == 3);
        assert("giropay"@.len() == 7);
        assert("ideal"@.len() == 5);
        assert("mybank"@.len() == 6);
        assert("p24"@.len() == 3);
        assert("sofort"@.len() == 6);
        assert("trustly"@.len() == 7);
        assert("venmo"@.len() == 5);
        assert("paypal"@.len() == 6);
        assert("apple_pay"@.len() == 9);
        assert("google_pay"@.len() == 10);
        assert("card"@[0] == 'c');
        assert("blik"@[0] == 'b');
        assert("bancontact"@[0] == 'b');
        assert("google_pay"@[0] == 'g');
        assert("eps"@[0] == 'e');
        assert("p24"@[0] == 'p');
        assert("giropay"@[0] == 'g');
        assert("trustly"@[0] == 't');
        assert("ideal"@[0] == 'i');
        assert("venmo"@[0] == 'v');
        assert("mybank"@[0] == 'm');
        assert("sofort"@[0] == 's');
        assert("paypal"@[0] == 'p');
    }

    /// Where the `sofort` field stands in the wire document.
    proof fn lemma_lookup_sofort(t: Self)
        ensures
            lookup(t.wire_fields(), "sofort"@) == (match t.sofort {
                Some(x) => Some(x.encoding()),
                None => None::<Jv>,
            }),
    {
        reveal_strlit("card");
        reveal_strlit("bancontact");
        reveal_strlit("blik");
        reveal_strlit("eps");
        reveal_strlit("giropay");
        reveal_strlit("ideal");
        reveal_strlit("mybank");
        reveal_strlit("p24");
        reveal_strlit("sofort");
        reveal_strlit("trustly");
        reveal_strlit("venmo");
        reveal_strlit("paypal");
        reveal_strlit("apple_pay");
        reveal_strlit("google_pay");
        assert("card"@.len() == 4);
        assert("bancontact"@.len() == 10);
        assert("blik"@.len() == 4);
        assert("eps"@.len() == 3);
        assert("giropay"@.len() == 7);
        assert("ideal"@.len() == 5);
        assert("mybank"@.len() == 6);
        assert("p24"@.len() == 3);
        assert("sofort"@.len() == 6);
        assert("trustly"@.len() == 7);
        assert("venmo"@.len() == 5);
        assert("paypal"@.len() == 6);
        assert("apple_pay"@.len() == 9);
        assert("google_pay"@.len() == 10);
        assert("card"@[0] == 'c');
        assert("blik"@[0] == 'b');
        assert("bancontact"@[0] == 'b');
        assert("google_pay"@[0] == 'g');
        assert("eps"@[0] == 'e');
        assert("p24"@[0] == 'p');
        assert("giropay"@[0] == 'g');
        assert("trustly"@[0] == 't');
        assert("ideal"@[0] == 'i');
        assert("venmo"@[0] == 'v');
        assert("mybank"@[0] == 'm');
        assert("sofort"@[0] == 's');
        assert("paypal"@[0] == 'p');
    }

    /// Where the `trustly` field stands in the wire document.
    proof fn lemma_lookup_trustly(t: Self)
        ensures
            lookup(t.wire_fields(), "trustly"@) == (match t.trustly {
                Some(x) => Some(x.encoding()),
                None => None::<Jv>,
            }),
    {
        reveal_strlit("card");
        reveal_strlit("bancontact");
        reveal_strlit("blik");
        reveal_strlit("eps");
        reveal_strlit("giropay");
        reveal_strlit("ideal");
        reveal_strlit("mybank");
        reveal_strlit("p24");
        reveal_strlit("sofort");
        reveal_strlit("trustly");
        reveal_strlit("venmo");
        reveal_strlit("paypal");
        reveal_strlit("apple_pay");
        reveal_strlit("google_pay");
        assert("card"@.len() == 4);
        assert("bancontact"@.len() == 10);
        assert("blik"@.len() == 4);
        assert("eps"@.len() == 3);
        assert("giropay"@.len() == 7);
        assert("ideal"@.len() == 5);
        assert("mybank"@.len() == 6);
        assert("p24"@.len() == 3);
        assert("sofort"@.len() == 6);
        assert("trustly"@.len() == 7);
        assert("venmo"@.len() == 5);
        assert("paypal"@.len() == 6);
        assert("apple_pay"@.len() == 9);
        assert("google_pay"@.len() == 10);
        assert("card"@[0] == 'c');
        assert("blik"@[0] == 'b');
        assert("bancontact"@[0] == 'b');
        assert("google_pay"@[0] == 'g');
        assert("eps"@[0] == 'e');
        assert("p24"@[0] == 'p');
        assert("giropay"@[0] == 'g');
        assert("trustly"@[0] == 't');
        assert("ideal"@[0] == 'i');
        assert("venmo"@[0] == 'v');
        assert("mybank"@[0] == 'm');
        assert("sofort"@[0] == 's');
        assert("paypal"@[0] == 'p');
    }

    /// Where the `venmo` field stands in the wire document.
    proof fn lemma_lookup_venmo(t: Self)
        ensures
            lookup(t.wire_fields(), "venmo"@) == (match t.venmo {
                Some(x) => Some(x.encoding()),
                None => None::<Jv>,
            }),
    {
        reveal_strlit("card");
        reveal_strlit("bancontact");
        reveal_strlit("blik");
        reveal_strlit("eps");
        reveal_strlit("giropay");
        reveal_strlit("ideal");
        reveal_strlit("mybank");
        reveal_strlit("p24");
        reveal_strlit("sofort");
        reveal_strlit("trustly");
        reveal_strlit("venmo");
        reveal_strlit("paypal");
        reveal_strlit("apple_pay");
        reveal_strlit("google_pay");
        assert("card"@.len() == 4);
        assert("bancontact"@.len() == 10);
        assert("blik"@.len() == 4);
        assert("eps"@.len() == 3);
        assert("giropay"@.len() == 7);
        assert("ideal"@.len() == 5);
        assert("mybank"@.len() == 6);
        assert("p24"@.len() == 3);
        assert("sofort"@.len() == 6);
        assert("trustly"@.len() == 7);
        assert("venmo"@.len() == 5);
        assert("paypal"@.len() == 6);
        assert("apple_pay"@.len() == 9);
        assert("google_pay"@.len() == 10);
        assert("card"@[0] == 'c');
        assert("blik"@[0] == 'b');
        assert("bancontact"@[0] == 'b');
        assert("google_pay"@[0] == 'g');
        assert("eps"@[0] == 'e');
        assert("p24"@[0] == 'p');
        assert("giropay"@[0] == 'g');
        assert("trustly"@[0] == 't');
        assert("ideal"@[0] == 'i');
        assert("venmo"@[0] == 'v');
        assert("mybank"@[0] == 'm');
        assert("sofort"@[0] == 's');
        assert("paypal"@[0] == 'p');
    }

    /// Where the `paypal` field stands in the wire document.
    proof fn lemma_lookup_paypal(t: Self)
        ensures
            lookup(t.wire_fields(), "paypal"@) == (match t.paypal {
                Some(x) => Some(x.encoding()),
                None => None::<Jv>,
            }),
    {
        reveal_strlit("card");
        reveal_strlit("bancontact");
        reveal_strlit("blik");
        reveal_strlit("eps");
        reveal_strlit("giropay");
        reveal_strlit("ideal");
        reveal_strlit("mybank");
        reveal_strlit("p24");
        reveal_strlit("sofort");
        reveal_strlit("trustly");
        reveal_strlit("venmo");
        reveal_strlit("paypal");
        reveal_strlit("apple_pay");
        reveal_strlit("google_pay");
        assert("card"@.len() == 4);
        assert("bancontact"@.len() == 10);
        assert("blik"@.len() == 4);
        assert("eps"@.len() == 3);
        assert("giropay"@.len() == 7);
        assert("ideal"@.len() == 5);
        assert("mybank"@.len() == 6);
        assert("p24"@.len() == 3);
        assert("sofort"@.len() == 6);
        assert("trustly"@.len() == 7);
        assert("venmo"@.len() == 5);
        assert("paypal"@.len() == 6);
        assert("apple_pay"@.len() == 9);
        assert("google_pay"@.len() == 10);
        assert("card"@[0] == 'c');
        assert("blik"@[0] == 'b');
        assert("bancontact"@[0] == 'b');
        assert("google_pay"@[0] == 'g');
        assert("eps"@[0] == 'e');
        assert("p24"@[0] == 'p');
        assert("giropay"@[0] == 'g');
        assert("trustly"@[0] == 't');
        assert("ideal"@[0] == 'i');
        assert("venmo"@[0] == 'v');
        assert("mybank"@[0] == 'm');
        assert("sofort"@[0] == 's');
        assert("paypal"@[0] == 'p');
    }

    /// Where the `apple_pay` field stands in the wire document.
    proof fn lemma_lookup_apple_pay(t: Self)
        ensures
            lookup(t.wire_fields(), "apple_pay"@) == (match t.apple_pay {
                Some(x) => Some(x.encoding()),
                None => None::<Jv>,
            }),
    {
        reveal_strlit("card");
        reveal_strlit("bancontact");
        reveal_strlit("blik");
        reveal_strlit("eps");
        reveal_strlit("giropay");
        reveal_strlit("ideal");
        reveal_strlit("mybank");
        reveal_strlit("p24");
        reveal_strlit("sofort");
        reveal_strlit("trustly");
        reveal_strlit("venmo");
        reveal_strlit("paypal");
        reveal_strlit("apple_pay");
        reveal_strlit("google_pay");
        assert("card"@.len() == 4);
        assert("bancontact"@.len() == 10);
        assert("blik"@.len() == 4);
        assert("eps"@.len() == 3);
        assert("giropay"@.len() == 7);
        assert("ideal"@.len() == 5);
        assert("mybank"@.len() == 6);
        assert("p24"@.len() == 3);
        assert("sofort"@.len() == 6);
        assert("trustly"@.len() == 7);
        assert("venmo"@.len() == 5);
        assert("paypal"@.len() == 6);
        assert("apple_pay"@.len() == 9);
        assert("google_pay"@.len() == 10);
        assert("card"@[0] == 'c');
        assert("blik"@[0] == 'b');
        assert("bancontact"@[0] == 'b');
        assert("google_pay"@[0] == 'g');
        assert("eps"@[0] == 'e');
        assert("p24"@[0] == 'p');
        assert("giropay"@[0] == 'g');
        assert("trustly"@[0] == 't');
        assert("ideal"@[0] == 'i');
        assert("venmo"@[0] == 'v');
        assert("mybank"@[0] == 'm');
        assert("sofort"@[0] == 's');
        assert("paypal"@[0] == 'p');
    }

    /// Where the `google_pay` field stands in the wire document.
    proof fn lemma_lookup_google_pay(t: Self)
        ensures
            lookup(t.wire_fields(), "google_pay"@) == (match t.google_pay {
                Some(x) => Some(x.encoding()),
                None => None::<Jv>,
            }),
    {
        reveal_strlit("card");
        reveal_strlit("bancontact");
        reveal_strlit("blik");
        reveal_strlit("eps");
        reveal_strlit("giropay");
        reveal_strlit("ideal");
        reveal_strlit("mybank");
        reveal_strlit("p24");
        reveal_strlit("sofort");
        reveal_strlit("trustly");
        reveal_strlit("venmo");
        reveal_strlit("paypal");
        reveal_strlit("apple_pay");
        reveal_strlit("google_pay");
        assert("card"@.len() == 4);
        assert("bancontact"@.len() == 10);
        assert("blik"@.len() == 4);
        assert("eps"@.len() == 3);
        assert("giropay"@.len() == 7);
        assert("ideal"@.len() == 5);
        assert("mybank"@.len() == 6);
        assert("p24"@.len() == 3);
        assert("sofort"@.len() == 6);
        assert("trustly"@.len() == 7);
        assert("venmo"@.len() == 5);
        assert("paypal"@.len() == 6);
        assert("apple_pay"@.len() == 9);
        assert("google_pay"@.len() == 10);
        assert("card"@[0] == 'c');
        assert("blik"@[0] == 'b');
        assert("bancontact"@[0] == 'b');
        assert("google_pay"@[0] == 'g');
        assert("eps"@[0] == 'e');
        assert("p24"@[0] == 'p');
        assert("giropay"@[0] == 'g');
        assert("trustly"@[0] == 't');
        assert("ideal"@[0] == 'i');
        assert("venmo"@[0] == 'v');
        assert("mybank"@[0] == 'm');
        assert("sofort"@[0] == 's');
        assert("paypal"@[0] == 'p');
    }

    /// Two values that decode from the same document put the same
    /// document back on the wire.
    #[verifier::rlimit(100)]
    proof fn lemma_encoding_agrees(t: Self, u: Self)
        requires
            <PaymentSourceResponse as WireCodec>::decodes_to(t.encoding(), u),
        ensures
            u.encoding() == t.encoding(),
    {
        Self::lemma_lookup_card(t);
        Self::lemma_lookup_bancontact(t);
        Self::lemma_lookup_blik(t);
        Self::lemma_lookup_eps(t);
        Self::lemma_lookup_giropay(t);
        Self::lemma_lookup_ideal(t);
        Self::lemma_lookup_mybank(t);
        Self::lemma_lookup_p24(t);
        Self::lemma_lookup_sofort(t);
        Self::lemma_lookup_trustly(t);
        Self::lemma_lookup_venmo(t);
        Self::lemma_lookup_paypal(t);
        Self::lemma_lookup_apple_pay(t);
        Self::lemma_lookup_google_pay(t);
        if let (Some(x), Some(y)) = (t.card, u.card) {
            JsonValue::lemma_round_trip(x, y);
        }
        if let (Some(x), Some(y)) = (t.bancontact, u.bancontact) {
            JsonValue::lemma_round_trip(x, y);
        }
        if let (Some(x), Some(y)) = (t.blik, u.blik) {
            JsonValue::lemma_round_trip(x, y);
        }
        if let (Some(x), Some(y)) = (t.eps, u.eps) {
            JsonValue::lemma_round_trip(x, y);
        }
        if let (Some(x), Some(y)) = (t.giropay, u.giropay) {
            JsonValue::lemma_round_trip(x, y);
        }
        if let (Some(x), Some(y)) = (t.ideal, u.ideal) {
            JsonValue::lemma_round_trip(x, y);
        }
        if let (Some(x), Some(y)) = (t.mybank, u.mybank) {
            JsonValue::lemma_round_trip(x, y);
        }
        if let (Some(x), Some(y)) = (t.p24, u.p24) {
            JsonValue::lemma_round_trip(x, y);
        }
        if let (Some(x), Some(y)) = (t.sofort, u.sofort) {
            JsonValue::lemma_round_trip(x, y);
        }
        if let (Some(x), Some(y)) = (t.trustly, u.trustly) {
            JsonValue::lemma_round_trip(x, y);
        }
        if let (Some(x), Some(y)) = (t.venmo, u.venmo) {
            JsonValue::lemma_round_trip(x, y);
        }
        if let (Some(x), Some(y)) = (t.paypal, u.paypal) {
            JsonValue::lemma_round_trip(x, y);
        }
        if let (Some(x), Some(y)) = (t.apple_pay, u.apple_pay) {
            JsonValue::lemma_round_trip(x, y);
        }
        if let (Some(x), Some(y)) = (t.google_pay, u.google_pay) {
            JsonValue::lemma_round_trip(x, y);
        }
        assert(opt_entry("card"@, u.card) == opt_entry("card"@, t.card));
        assert(opt_entry("bancontact"@, u.bancontact) == opt_entry("bancontact"@, t.bancontact));
        assert(opt_entry("blik"@, u.blik) == opt_entry("blik"@, t.blik));
        assert(opt_entry("eps"@, u.eps) == opt_entry("eps"@, t.eps));
        assert(opt_entry("giropay"@, u.giropay) == opt_entry("giropay"@, t.giropay));
        assert(opt_entry("ideal"@, u.ideal) == opt_entry("ideal"@, t.ideal));
        assert(opt_entry("mybank"@, u.mybank) == opt_entry("mybank"@, t.mybank));
        assert(opt_entry("p24"@, u.p24) == opt_entry("p24"@, t.p24));
        assert(opt_entry("sofort"@, u.sofort) == opt_entry("sofort"@, t.sofort));
        assert(opt_entry("trustly"@, u.trustly) == opt_entry("trustly"@, t.trustly));
        assert(opt_entry("venmo"@, u.venmo) == opt_entry("venmo"@, t.venmo));
        assert(opt_entry("paypal"@, u.paypal) == opt_entry("paypal"@, t.paypal));
        assert(opt_entry("apple_pay"@, u.apple_pay) == opt_entry("apple_pay"@, t.apple_pay));
        assert(opt_entry("google_pay"@, u.google_pay) == opt_entry("google_pay"@, t.google_pay));
        assert(u.wire_fields() == t.wire_fields());
    }
}

impl WireCodec for PaymentSourceResponse {
    open spec fn encoding(self) -> Jv {
        Jv::Object(self.wire_fields())
    }

    open spec fn can_decode(v: Jv) -> bool {
        match v {
            Jv::Object(fs) => {
                &&& opt_ok::<JsonValue>(fs, "card"@)
                &&& opt_ok::<JsonValue>(fs, "bancontact"@)
                &&& opt_ok::<JsonValue>(fs, "blik"@)
                &&& opt_ok::<JsonValue>(fs, "eps"@)
                &&& opt_ok::<JsonValue>(fs, "giropay"@)
                &&& opt_ok::<JsonValue>(fs, "ideal"@)
                &&& opt_ok::<JsonValue>(fs, "mybank"@)
                &&& opt_ok::<JsonValue>(fs, "p24"@)
                &&& opt_ok::<JsonValue>(fs, "sofort"@)
                &&& opt_ok::<JsonValue>(fs, "trustly"@)
                &&& opt_ok::<JsonValue>(fs, "venmo"@)
                &&& opt_ok::<JsonValue>(fs, "paypal"@)
                &&& opt_ok::<JsonValue>(fs, "apple_pay"@)
                &&& opt_ok::<JsonValue>(fs, "google_pay"@)
            },
            _ => false,
        }
    }

    open spec fn decodes_to(v: Jv, t: Self) -> bool {
        match v {
            Jv::Object(fs) => {
                &&& opt_rel::<JsonValue>(fs, "card"@, t.card)
                &&& opt_rel::<JsonValue>(fs, "bancontact"@, t.bancontact)
                &&& opt_rel::<JsonValue>(fs, "blik"@, t.blik)
                &&& opt_rel::<JsonValue>(fs, "eps"@, t.eps)
                &&& opt_rel::<JsonValue>(fs, "giropay"@, t.giropay)
                &&& opt_rel::<JsonValue>(fs, "ideal"@, t.ideal)
                &&& opt_rel::<JsonValue>(fs, "mybank"@, t.mybank)
                &&& opt_rel::<JsonValue>(fs, "p24"@, t.p24)
                &&& opt_rel::<JsonValue>(fs, "sofort"@, t.sofort)
                &&& opt_rel::<JsonValue>(fs, "trustly"@, t.trustly)
                &&& opt_rel::<JsonValue>(fs, "venmo"@, t.venmo)
                &&& opt_rel::<JsonValue>(fs, "paypal"@, t.paypal)
                &&& opt_rel::<JsonValue>(fs, "apple_pay"@, t.apple_pay)
                &&& opt_rel::<JsonValue>(fs, "google_pay"@, t.google_pay)
            },
            _ => false,
        }
    }

    #[verifier::rlimit(100)]
    fn encode(&self) -> (r: JsonValue) {
        let mut fs: Vec<(String, JsonValue)> = Vec::new();
        push_opt(&mut fs, "card", &self.card);
        push_opt(&mut fs, "bancontact", &self.bancontact);
        push_opt(&mut fs, "blik", &self.blik);
        push_opt(&mut fs, "eps", &self.eps);
        push_opt(&mut fs, "giropay", &self.giropay);
        push_opt(&mut fs, "ideal", &self.ideal);
        push_opt(&mut fs, "mybank", &self.mybank);
        push_opt(&mut fs, "p24", &self.p24);
        push_opt(&mut fs, "sofort", &self.sofort);
        push_opt(&mut fs, "trustly", &self.trustly);
        push_opt(&mut fs, "venmo", &self.venmo);
        push_opt(&mut fs, "paypal", &self.paypal);
        push_opt(&mut fs, "apple_pay", &self.apple_pay);
        push_opt(&mut fs, "google_pay", &self.google_pay);
        proof {
            crate::json::lemma_concat_left_empty(opt_entry("card"@, (*self).card));
            assert(jv_of_fields(fs@) == (*self).wire_fields());
        }
        JsonValue::Object(fs)
    }

    fn decode(v: &JsonValue) -> (r: Result<Self, DecodeError>) {
        match v {
            JsonValue::Object(fields) => {
                let card = match get_opt::<JsonValue>(fields, "card") {
                    Ok(x) => x,
                    Err(e) => return Err(e),
                };
                let bancontact = match get_opt::<JsonValue>(fields, "bancontact") {
                    Ok(x) => x,
                    Err(e) => return Err(e),
                };
                let blik = match get_opt::<JsonValue>(fields, "blik") {
                    Ok(x) => x,
                    Err(e) => return Err(e),
                };
                let eps = match get_opt::<JsonValue>(fields, "eps") {
                    Ok(x) => x,
                    Err(e) => return Err(e),
                };
                let giropay = match get_opt::<JsonValue>(fields, "giropay") {
                    Ok(x) => x,
                    Err(e) => return Err(e),
                };
                let ideal = match get_opt::<JsonValue>(fields, "ideal") {
                    Ok(x) => x,
                    Err(e) => return Err(e),
                };
                let mybank = match get_opt::<JsonValue>(fields, "mybank") {
                    Ok(x) => x,
                    Err(e) => return Err(e),
                };
                let p24 = match get_opt::<JsonValue>(fields, "p24") {
                    Ok(x) => x,
                    Err(e) => return Err(e),
                };
                let sofort = match get_opt::<JsonValue>(fields, "sofort") {
                    Ok(x) => x,
                    Err(e) => return Err(e),
                };
                let trustly = match get_opt::<JsonValue>(fields, "trustly") {
                    Ok(x) => x,
                    Err(e) => return Err(e),
                };
                let venmo = match get_opt::<JsonValue>(fields, "venmo") {
                    Ok(x) => x,
                    Err(e) => return Err(e),
                };
                let paypal = match get_opt::<JsonValue>(fields, "paypal") {
                    Ok(x) => x,
                    Err(e) => return Err(e),
                };
                let apple_pay = match get_opt::<JsonValue>(fields, "apple_pay") {
                    Ok(x) => x,
                    Err(e) => return Err(e),
                };
                let google_pay = match get_opt::<JsonValue>(fields, "google_pay") {
                    Ok(x) => x,
                    Err(e) => return Err(e),
                };
                Ok(PaymentSourceResponse { card, bancontact, blik, eps, giropay, ideal, mybank, p24, sofort, trustly, venmo, paypal, apple_pay, google_pay })
            },
            _ => Err(DecodeError::WrongType("object".to_owned())),
        }
    }

    #[verifier::rlimit(100)]
    proof fn lemma_round_trip(t: Self, u: Self) {
        Self::lemma_lookup_card(t);
        Self::lemma_lookup_bancontact(t);
        Self::lemma_lookup_blik(t);
        Self::lemma_lookup_eps(t);
        Self::lemma_lookup_giropay(t);
        Self::lemma_lookup_ideal(t);
        Self::lemma_lookup_mybank(t);
        Self::lemma_lookup_p24(t);
        Self::lemma_lookup_sofort(t);
        Self::lemma_lookup_trustly(t);
        Self::lemma_lookup_venmo(t);
        Self::lemma_lookup_paypal(t);
        Self::lemma_lookup_apple_pay(t);
        Self::lemma_lookup_google_pay(t);
        if let Some(x) = t.card {
            JsonValue::lemma_round_trip(x, x);
        }
        if let Some(x) = t.bancontact {
            JsonValue::lemma_round_trip(x, x);
        }
        if let Some(x) = t.blik {
            JsonValue::lemma_round_trip(x, x);
        }
        if let Some(x) = t.eps {
            JsonValue::lemma_round_trip(x, x);
        }
        if let Some(x) = t.giropay {
            JsonValue::lemma_round_trip(x, x);
        }
        if let Some(x) = t.ideal {
            JsonValue::lemma_round_trip(x, x);
        }
        if let Some(x) = t.mybank {
            JsonValue::lemma_round_trip(x, x);
        }
        if let Some(x) = t.p24 {
            JsonValue::lemma_round_trip(x, x);
        }
        if let Some(x) = t.sofort {
            JsonValue::lemma_round_trip(x, x);
        }
        if let Some(x) = t.trustly {
            JsonValue::lemma_round_trip(x, x);
        }
        if let Some(x) = t.venmo {
            JsonValue::lemma_round_trip(x, x);
        }
        if let Some(x) = t.paypal {
            JsonValue::lemma_round_trip(x, x);
        }
        if let Some(x) = t.apple_pay {
            JsonValue::lemma_round_trip(x, x);
        }
        if let Some(x) = t.google_pay {
            JsonValue::lemma_round_trip(x, x);
        }
        if Self::decodes_to(t.encoding(), u) {
            Self::lemma_encoding_agrees(t, u);
        }
    }
}

/// An order: a payment between two or more parties.
#[derive(Debug, PartialEq)]
pub struct Order {
    /// When the transaction occurred, as an ISO-8601 timestamp.
    pub create_time: Option<String>,
    /// When the transaction was last updated, as an ISO-8601 timestamp.
    pub update_time: Option<String>,
    /// The ID of the order.
    pub id: String,
    /// The purchase units: each establishes a contract between a customer
    /// and a merchant.
    pub purchase_units: Option<Vec<PurchaseUnit>>,
    /// Request-related HATEOAS links; the payer completes approval through
    /// the approve link.
    pub links: Vec<LinkDescription>,
    /// The payment source used to fund the payment.
    pub payment_source: Option<PaymentSourceResponse>,
    /// The intent to capture or authorize payment for the order.
    pub intent: Option<Intent>,
    /// The customer who approves and pays for the order.
    pub payer: Option<Payer>,
    /// The order status.
    pub status: OrderStatus,
}

impl Order {
    /// The fields of this value's wire document, in emission order.
    pub open spec fn wire_fields(self) -> Seq<(Seq<char>, Jv)> {
        opt_entry("create_time"@, self.create_time) + opt_entry("update_time"@, self.update_time) + field_entry("id"@, self.id.encoding()) + opt_entry("purchase_units"@, self.purchase_units) + field_entry("links"@, self.links.encoding()) + opt_entry("payment_source"@, self.payment_source) + opt_entry("intent"@, self.intent) + opt_entry("payer"@, self.payer) + field_entry("status"@, self.status.encoding())
    }

    /// Where the `create_time` field stands in the wire document.
    proof fn lemma_lookup_create_time(t: Self)
        ensures
            lookup(t.wire_fields(), "create_time"@) == (match t.create_time {
                Some(x) => Some(x.encoding()),
                None => None::<Jv>,
            }),
    {
        reveal_strlit("create_time");
        reveal_strlit("update_time");
        reveal_strlit("id");
        reveal_strlit("purchase_units");
        reveal_strlit("links");
        reveal_strlit("payment_source");
        reveal_strlit("intent");
        reveal_strlit("payer");
        reveal_strlit("status");
        assert("create_time"@.len() == 11);
        assert("update_time"@.len() == 11);
        assert("id"@.len() == 2);
        assert("purchase_units"@.len() == 14);
        assert("links"@.len() == 5);
        assert("payment_source"@.len() == 14);
        assert("intent"@.len() == 6);
        assert("payer"@.len() == 5);
        assert("status"@.len() == 6);
        assert("create_time"@[0] == 'c');
        assert("update_time"@[0] == 'u');
        assert("purchase_units"@[1] == 'u');
        assert("payment_source"@[1] == 'a');
        assert("links"@[0] == 'l');
        assert("payer"@[0] == 'p');
        assert("intent"@[0] == 'i');
        assert("status"@[0] == 's');
    }

    /// Where the `update_time` field stands in the wire document.
    proof fn lemma_lookup_update_time(t: Self)
        ensures
            lookup(t.wire_fields(), "update_time"@) == (match t.update_time {
                Some(x) => Some(x.encoding()),
                None => None::<Jv>,
            }),
    {
        reveal_strlit("create_time");
        reveal_strlit("update_time");
        reveal_strlit("id");
        reveal_strlit("purchase_units");
        reveal_strlit("links");
        reveal_strlit("payment_source");
        reveal_strlit("intent");
        reveal_strlit("payer");
        reveal_strlit("status");
        assert("create_time"@.len() == 11);
        assert("update_time"@.len() == 11);
        assert("id"@.len() == 2);
        assert("purchase_units"@.len() == 14);
        assert("links"@.len() == 5);
        assert("payment_source"@.len() == 14);
        assert("intent"@.len() == 6);
        assert("payer"@.len() == 5);
        assert("status"@.len() == 6);
        assert("create_time"@[0] == 'c');
        assert("update_time"@[0] == 'u');
        assert("purchase_units"@[1] == 'u');
        assert("payment_source"@[1] == 'a');
        assert("links"@[0] == 'l');
        assert("payer"@[0] == 'p');
        assert("intent"@[0] == 'i');
        assert("status"@[0] == 's');
    }

    /// Where the `id` field stands in the wire document.
    proof fn lemma_lookup_id(t: Self)
        ensures
            lookup(t.wire_fields(), "id"@) == Some(t.id.encoding()),
    {
        reveal_strlit("create_time");
        reveal_strlit("update_time");
        reveal_strlit("id");
        reveal_strlit("purchase_units");
        reveal_strlit("links");
        reveal_strlit("payment_source");
        reveal_strlit("intent");
        reveal_strlit("payer");
        reveal_strlit("status");
        assert("create_time"@.len() == 11);
        assert("update_time"@.len() == 11);
        assert("id"@.len() == 2);
        assert("purchase_units"@.len() == 14);
        assert("links"@.len() == 5);
        assert("payment_source"@.len() == 14);
        assert("intent"@.len() == 6);
        assert("payer"@.len() == 5);
        assert("status"@.len() == 6);
        assert("create_time"@[0] == 'c');
        assert("update_time"@[0] == 'u');
        assert("purchase_units"@[1] == 'u');
        assert("payment_source"@[1] == 'a');
        assert("links"@[0] == 'l');
        assert("payer"@[0] == 'p');
        assert("intent"@[0] == 'i');
        assert("status"@[0] == 's');
    }

    /// Where the `purchase_units` field stands in the wire document.
    proof fn lemma_lookup_purchase_units(t: Self)
        ensures
            lookup(t.wire_fields(), "purchase_units"@) == (match t.purchase_units {
                Some(x) => Some(x.encoding()),
                None => None::<Jv>,
            }),
    {
        reveal_strlit("create_time");
        reveal_strlit("update_time");
        reveal_strlit("id");
        reveal_strlit("purchase_units");
        reveal_strlit("links");
        reveal_strlit("payment_source");
        reveal_strlit("intent");
        reveal_strlit("payer");
        reveal_strlit("status");
        assert("create_time"@.len() == 11);
        assert("update_time"@.len() == 11);
        assert("id"@.len() == 2);
        assert("purchase_units"@.len() == 14);
        assert("links"@.len() == 5);
        assert("payment_source"@.len() == 14);
        assert("intent"@.len() == 6);
        assert("payer"@.len() == 5);
        assert("status"@.len() == 6);
        assert("create_time"@[0] == 'c');
        assert("update_time"@[0] == 'u');
        assert("purchase_units"@[1] == 'u');
        assert("payment_source"@[1] == 'a');
        assert("links"@[0] == 'l');
        assert("payer"@[0] == 'p');
        assert("intent"@[0] == 'i');
        assert("status"@[0] == 's');
    }

    /// Where the `links` field stands in the wire document.
    proof fn lemma_lookup_links(t: Self)
        ensures
            lookup(t.wire_fields(), "links"@) == Some(t.links.encoding()),
    {
        reveal_strlit("create_time");
        reveal_strlit("update_time");
        reveal_strlit("id");
        reveal_strlit("purchase_units");
        reveal_strlit("links");
        reveal_strlit("payment_source");
        reveal_strlit("intent");
        reveal_strlit("payer");
        reveal_strlit("status");
        assert("create_time"@.len() == 11);
        assert("update_time"@.len() == 11);
        assert("id"@.len() == 2);
        assert("purchase_units"@.len() == 14);
        assert("links"@.len() == 5);
        assert("payment_source"@.len() == 14);
        assert("intent"@.len() == 6);
        assert("payer"@.len() == 5);
        assert("status"@.len() == 6);
        assert("create_time"@[0] == 'c');
        assert("update_time"@[0] == 'u');
        assert("purchase_units"@[1] == 'u');
        assert("payment_source"@[1] == 'a');
        assert("links"@[0] == 'l');
        assert("payer"@[0] == 'p');
        assert("intent"@[0] == 'i');
        assert("status"@[0] == 's');
    }

    /// Where the `payment_source` field stands in the wire document.
    proof fn lemma_lookup_payment_source(t: Self)
        ensures
            lookup(t.wire_fields(), "payment_source"@) == (match t.payment_source {
                Some(x) => Some(x.encoding()),
                None => None::<Jv>,
            }),
    {
        reveal_strlit("create_time");
        reveal_strlit("update_time");
        reveal_strlit("id");
        reveal_strlit("purchase_units");
        reveal_strlit("links");
        reveal_strlit("payment_source");
        reveal_strlit("intent");
        reveal_strlit("payer");
        reveal_strlit("status");
        assert("create_time"@.len() == 11);
        assert("update_time"@.len() == 11);
        assert("id"@.len() == 2);
        assert("purchase_units"@.len() == 14);
        assert("links"@.len() == 5);
        assert("payment_source"@.len() == 14);
        assert("intent"@.len() == 6);
        assert("payer"@.len() == 5);
        assert("status"@.len() == 6);
        assert("create_time"@[0] == 'c');
        assert("update_time"@[0] == 'u');
        assert("purchase_units"@[1] == 'u');
        assert("payment_source"@[1] == 'a');
        assert("links"@[0] == 'l');
        assert("payer"@[0] == 'p');
        assert("intent"@[0] == 'i');
        assert("status"@[0] == 's');
    }

    /// Where the `intent` field stands in the wire document.
    proof fn lemma_lookup_intent(t: Self)
        ensures
            lookup(t.wire_fields(), "intent"@) == (match t.intent {
                Some(x) => Some(x.encoding()),
                None => None::<Jv>,
            }),
    {
        reveal_strlit("create_time");
        reveal_strlit("update_time");
        reveal_strlit("id");
        reveal_strlit("purchase_units");
        reveal_strlit("links");
        reveal_strlit("payment_source");
        reveal_strlit("intent");
        reveal_strlit("payer");
        reveal_strlit("status");
        assert("create_time"@.len() == 11);
        assert("update_time"@.len() == 11);
        assert("id"@.len() == 2);
        assert("purchase_units"@.len() == 14);
        assert("links"@.len() == 5);
        assert("payment_source"@.len() == 14);
        assert("intent"@.len() == 6);
        assert("payer"@.len() == 5);
        assert("status"@.len() == 6);
        assert("create_time"@[0] == 'c');
        assert("update_time"@[0] == 'u');
        assert("purchase_units"@[1] == 'u');
        assert("payment_source"@[1] == 'a');
        assert("links"@[0] == 'l');
        assert("payer"@[0] == 'p');
        assert("intent"@[0] == 'i');
        assert("status"@[0] == 's');
    }

    /// Where the `payer` field stands in the wire document.
    proof fn lemma_lookup_payer(t: Self)
        ensures
            lookup(t.wire_fields(), "payer"@) == (match t.payer {
                Some(x) => Some(x.encoding()),
                None => None::<Jv>,
            }),
    {
        reveal_strlit("create_time");
        reveal_strlit("update_time");
        reveal_strlit("id");
        reveal_strlit("purchase_units");
        reveal_strlit("links");
        reveal_strlit("payment_source");
        reveal_strlit("intent");
        reveal_strlit("payer");
        reveal_strlit("status");
        assert("create_time"@.len() == 11);
        assert("update_time"@.len() == 11);
        assert("id"@.len() == 2);
        assert("purchase_units"@.len() == 14);
        assert("links"@.len() == 5);
        assert("payment_source"@.len() == 14);
        assert("intent"@.len() == 6);
        assert("payer"@.len() == 5);
        assert("status"@.len() == 6);
        assert("create_time"@[0] == 'c');
        assert("update_time"@[0] == 'u');
        assert("purchase_units"@[1] == 'u');
        assert("payment_source"@[1] == 'a');
        assert("links"@[0] == 'l');
        assert("payer"@[0] == 'p');
        assert("intent"@[0] == 'i');
        assert("status"@[0] == 's');
    }

    /// Where the `status` field stands in the wire document.
    proof fn lemma_lookup_status(t: Self)
        ensures
            lookup(t.wire_fields(), "status"@) == Some(t.status.encoding()),
    {
        reveal_strlit("create_time");
        reveal_strlit("update_time");
        reveal_strlit("id");
        reveal_strlit("purchase_units");
        reveal_strlit("links");
        reveal_strlit("payment_source");
        reveal_strlit("intent");
        reveal_strlit("payer");
        reveal_strlit("status");
        assert("create_time"@.len() == 11);
        assert("update_time"@.len() == 11);
        assert("id"@.len() == 2);
        assert("purchase_units"@.len() == 14);
        assert("links"@.len() == 5);
        assert("payment_source"@.len() == 14);
        assert("intent"@.len() == 6);
        assert("payer"@.len() == 5);
        assert("status"@.len() == 6);
        assert("create_time"@[0] == 'c');
        assert("update_time"@[0] == 'u');
        assert("purchase_units"@[1] == 'u');
        assert("payment_source"@[1] == 'a');
        assert("links"@[0] == 'l');
        assert("payer"@[0] == 'p');
        assert("intent"@[0] == 'i');
        assert("status"@[0] == 's');
    }
}

impl WireCodec for Order {
    open spec fn encoding(self) -> Jv {
        Jv::Object(self.wire_fields())
    }

    open spec fn can_decode(v: Jv) -> bool {
        match v {
            Jv::Object(fs) => {
                &&& opt_ok::<String>(fs, "create_time"@)
                &&& opt_ok::<String>(fs, "update_time"@)
                &&& req_ok::<String>(fs, "id"@)
                &&& opt_ok::<Vec<PurchaseUnit>>(fs, "purchase_units"@)
                &&& req_ok::<Vec<LinkDescription>>(fs, "links"@)
                &&& opt_ok::<PaymentSourceResponse>(fs, "payment_source"@)
                &&& opt_ok::<Intent>(fs, "intent"@)
                &&& opt_ok::<Payer>(fs, "payer"@)
                &&& req_ok::<OrderStatus>(fs, "status"@)
            },
            _ => false,
        }
    }

    open spec fn decodes_to(v: Jv, t: Self) -> bool {
        match v {
            Jv::Object(fs) => {
                &&& opt_rel::<String>(fs, "create_time"@, t.create_time)
                &&& opt_rel::<String>(fs, "update_time"@, t.update_time)
                &&& req_rel::<String>(fs, "id"@, t.id)
                &&& opt_rel::<Vec<PurchaseUnit>>(fs, "purchase_units"@, t.purchase_units)
                &&& req_rel::<Vec<LinkDescription>>(fs, "links"@, t.links)
                &&& opt_rel::<PaymentSourceResponse>(fs, "payment_source"@, t.payment_source)
                &&& opt_rel::<Intent>(fs, "intent"@, t.intent)
                &&& opt_rel::<Payer>(fs, "payer"@, t.payer)
                &&& req_rel::<OrderStatus>(fs, "status"@, t.status)
            },
            _ => false,
        }
    }

    #[verifier::rlimit(100)]
    fn encode(&self) -> (r: JsonValue) {
        let mut fs: Vec<(String, JsonValue)> = Vec::new();
        push_opt(&mut fs, "create_time", &self.create_time);
        push_opt(&mut fs, "update_time", &self.update_time);
        push_req(&mut fs, "id", &self.id);
        push_opt(&mut fs, "purchase_units", &self.purchase_units);
        push_req(&mut fs, "links", &self.links);
        push_opt(&mut fs, "payment_source", &self.payment_source);
        push_opt(&mut fs, "intent", &self.intent);
        push_opt(&mut fs, "payer", &self.payer);
        push_req(&mut fs, "status", &self.status);
        proof {
            crate::json::lemma_concat_left_empty(opt_entry("create_time"@, (*self).create_time));
            assert(jv_of_fields(fs@) == (*self).wire_fields());
        }
        JsonValue::Object(fs)
    }

    fn decode(v: &JsonValue) -> (r: Result<Self, DecodeError>) {
        match v {
            JsonValue::Object(fields) => {
                let create_time = match get_opt::<String>(fields, "create_time") {
                    Ok(x) => x,
                    Err(e) => return Err(e),
                };
                let update_time = match get_opt::<String>(fields, "update_time") {
                    Ok(x) => x,
                    Err(e) => return Err(e),
                };
                let id = match get_req::<String>(fields, "id") {
                    Ok(x) => x,
                    Err(e) => return Err(e),
                };
                let purchase_units = match get_opt::<Vec<PurchaseUnit>>(fields, "purchase_units") {
                    Ok(x) => x,
                    Err(e) => return Err(e),
                };
                let links = match get_req::<Vec<LinkDescription>>(fields, "links") {
                    Ok(x) => x,
                    Err(e) => return Err(e),
                };
                let payment_source = match get_opt::<PaymentSourceResponse>(fields, "payment_source") {
                    Ok(x) => x,
                    Err(e) => return Err(e),
                };
                let intent = match get_opt::<Intent>(fields, "intent") {
                    Ok(x) => x,
                    Err(e) => return Err(e),
                };
                let payer = match get_opt::<Payer>(fields, "payer") {
                    Ok(x) => x,
                    Err(e) => return Err(e),
                };
                let status = match get_req::<OrderStatus>(fields, "status") {
                    Ok(x) => x,
                    Err(e) => return Err(e),
                };
                Ok(Order { create_time, update_time, id, purchase_units, links, payment_source, intent, payer, status })
            },
            _ => Err(DecodeError::WrongType("object".to_owned())),
        }
    }

    #[verifier::rlimit(100)]
    proof fn lemma_round_trip(t: Self, u: Self) {
        Self::lemma_lookup_create_time(t);
        Self::lemma_lookup_update_time(t);
        Self::lemma_lookup_id(t);
        Self::lemma_lookup_purchase_units(t);
        Self::lemma_lookup_links(t);
        Self::lemma_lookup_payment_source(t);
        Self::lemma_lookup_intent(t);
        Self::lemma_lookup_payer(t);
        Self::lemma_lookup_status(t);
        if let Some(x) = t.purchase_units {
            <Vec<PurchaseUnit> as WireCodec>::lemma_round_trip(x, x);
        }
        <Vec<LinkDescription> as WireCodec>::lemma_round_trip(t.links, u.links);
        if let Some(x) = t.payment_source {
            PaymentSourceResponse::lemma_round_trip(x, x);
        }
        if let Some(x) = t.intent {
            Intent::lemma_round_trip(x, x);
        }
        if let Some(x) = t.payer {
            Payer::lemma_round_trip(x, x);
        }
        OrderStatus::lemma_round_trip(t.status, u.status);
        if Self::decodes_to(t.encoding(), u) {
            if let (Some(x), Some(y)) = (t.purchase_units, u.purchase_units) {
                <Vec<PurchaseUnit> as WireCodec>::lemma_round_trip(x, y);
            }
            if let (Some(x), Some(y)) = (t.payment_source, u.payment_source) {
                PaymentSourceResponse::lemma_round_trip(x, y);
            }
            if let (Some(x), Some(y)) = (t.intent, u.intent) {
                Intent::lemma_round_trip(x, y);
            }
            if let (Some(x), Some(y)) = (t.payer, u.payer) {
                Payer::lemma_round_trip(x, y);
            }
            assert(opt_entry("create_time"@, u.create_time) == opt_entry("create_time"@, t.create_time));
            assert(opt_entry("update_time"@, u.update_time) == opt_entry("update_time"@, t.update_time));
            assert(field_entry("id"@, u.id.encoding()) == field_entry("id"@, t.id.encoding()));
            assert(opt_entry("purchase_units"@, u.purchase_units) == opt_entry("purchase_units"@, t.purchase_units));
            assert(field_entry("links"@, u.links.encoding()) == field_entry("links"@, t.links.encoding()));
            assert(opt_entry("payment_source"@, u.payment_source) == opt_entry("payment_source"@, t.payment_source));
            assert(opt_entry("intent"@, u.intent) == opt_entry("intent"@, t.intent));
            assert(opt_entry("payer"@, u.payer) == opt_entry("payer"@, t.payer));
            assert(field_entry("status"@, u.status.encoding()) == field_entry("status"@, t.status.encoding()));
            assert(u.wire_fields() == t.wire_fields());
        }
    }
}

} // verus!
