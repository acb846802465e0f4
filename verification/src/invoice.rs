//! The invoicing schema: the invoice aggregate, its detail, parties, line
//! items, configuration, amounts, payments and refunds.

use vstd::prelude::*;

use crate::codec::{field_entry, get_opt, get_req, obj_get, opt_entry, opt_ok, opt_rel,
    push_opt, push_req, req_ok, req_rel, str_eq};
use crate::codec::{BuildError, DecodeError, WireCodec};
use crate::common::{Address, Currency, LinkDescription, Money, PhoneType};
use crate::json::{jv_of_fields, lookup, JsonValue, Jv};

verus! {

broadcast use
    crate::json::lemma_jv_of_fields_push,
    crate::json::lemma_jv_of_elems_push,
    crate::json::lemma_lookup_concat,
    crate::codec::lemma_lookup_field_entry,
    crate::codec::lemma_lookup_opt_entry,
;

/// A reference to a file attached to an invoice.
#[derive(Debug, Clone, PartialEq)]
pub struct FileReference {
    /// The ID of the referenced file.
    pub id: String,
    /// The reference URL for the file.
    pub reference_url: String,
    /// The content type of the file.
    pub content_type: String,
    /// When the file was created, as an ISO-8601 timestamp.
    pub create_time: String,
    /// The size of the file, in bytes.
    pub size: String,
}

/// The payment term type.
#[derive(Debug, Clone, Copy, PartialEq, Eq)]
pub enum PaymentTermType {
    /// Payment is due upon receipt of the invoice.
    DueOnReceipt,
    /// Payment is due on the date specified in the invoice.
    DueOnDateSpecified,
    /// Payment is due in 10 days.
    Net10,
    /// Payment is due in 15 days.
    Net15,
    /// Payment is due in 30 days.
    Net30,
    /// Payment is due in 45 days.
    Net45,
    /// Payment is due in 60 days.
    Net60,
    /// Payment is due in 90 days.
    Net90,
    /// The invoice has no payment due date.
    NoDueDate,
}

impl FileReference {
    /// The fields of this value's wire document, in emission order.
    pub open spec fn wire_fields(self) -> Seq<(Seq<char>, Jv)> {
        field_entry("id"@, self.id.encoding()) + field_entry("reference_url"@, self.reference_url.encoding()) + field_entry("content_type"@, self.content_type.encoding()) + field_entry("create_time"@, self.create_time.encoding()) + field_entry("size"@, self.size.encoding())
    }
}

impl WireCodec for FileReference {
    open spec fn encoding(self) -> Jv {
        Jv::Object(self.wire_fields())
    }

    open spec fn can_decode(v: Jv) -> bool {
        match v {
            Jv::Object(fs) => {
                &&& req_ok::<String>(fs, "id"@)
                &&& req_ok::<String>(fs, "reference_url"@)
                &&& req_ok::<String>(fs, "content_type"@)
                &&& req_ok::<String>(fs, "create_time"@)
                &&& req_ok::<String>(fs, "size"@)
            },
            _ => false,
        }
    }

    open spec fn decodes_to(v: Jv, t: Self) -> bool {
        match v {
            Jv::Object(fs) => {
                &&& req_rel::<String>(fs, "id"@, t.id)
                &&& req_rel::<String>(fs, "reference_url"@, t.reference_url)
                &&& req_rel::<String>(fs, "content_type"@, t.content_type)
                &&& req_rel::<String>(fs, "create_time"@, t.create_time)
                &&& req_rel::<String>(fs, "size"@, t.size)
            },
            _ => false,
        }
    }

    fn encode(&self) -> (r: JsonValue) {
        let mut fs: Vec<(String, JsonValue)> = Vec::new();
        fs.push(("id".to_owned(), self.id.encode()));
        fs.push(("reference_url".to_owned(), self.reference_url.encode()));
        fs.push(("content_type".to_owned(), self.content_type.encode()));
        fs.push(("create_time".to_owned(), self.create_time.encode()));
        fs.push(("size".to_owned(), self.size.encode()));
        proof {
            crate::json::lemma_jv_of_fields(fs@);
            assert(jv_of_fields(fs@) =~= (*self).wire_fields());
        }
        JsonValue::Object(fs)
    }

    fn decode(v: &JsonValue) -> (r: Result<Self, DecodeError>) {
        match v {
            JsonValue::Object(fields) => {
                let id = match get_req::<String>(fields, "id") {
                    Ok(x) => x,
                    Err(e) => return Err(e),
                };
                let reference_url = match get_req::<String>(fields, "reference_url") {
                    Ok(x) => x,
                    Err(e) => return Err(e),
                };
                let content_type = match get_req::<String>(fields, "content_type") {
                    Ok(x) => x,
                    Err(e) => return Err(e),
                };
                let create_time = match get_req::<String>(fields, "create_time") {
                    Ok(x) => x,
                    Err(e) => return Err(e),
                };
                let size = match get_req::<String>(fields, "size") {
                    Ok(x) => x,
                    Err(e) => return Err(e),
                };
                Ok(FileReference { id, reference_url, content_type, create_time, size })
            },
            _ => Err(DecodeError::WrongType("object".to_owned())),
        }
    }

    proof fn lemma_round_trip(t: Self, u: Self) {
        reveal_strlit("id");
        reveal_strlit("reference_url");
        reveal_strlit("content_type");
        reveal_strlit("create_time");
        reveal_strlit("size");
        assert("id"@.len() == 2);
        assert("reference_url"@.len() == 13);
        assert("content_type"@.len() == 12);
        assert("create_time"@.len() == 11);
        assert("size"@.len() == 4);
        if Self::decodes_to(t.encoding(), u) {
            assert(u.wire_fields() =~= t.wire_fields());
        }
    }
}

/// The payment due date for the invoice.
#[derive(Debug, Clone, PartialEq)]
pub struct PaymentTerm {
    /// The payment term.
    pub term_type: PaymentTermType,
    /// The date when the invoice payment is due, as a calendar date.
    pub due_date: Option<String>,
}

impl PaymentTermType {
    /// The wire token of this value.
    pub open spec fn spec_token(self) -> Seq<char> {
        match self {
            PaymentTermType::DueOnReceipt => "DUE_ON_RECEIPT"@,
            PaymentTermType::DueOnDateSpecified => "DUE_ON_DATE_SPECIFIED"@,
            PaymentTermType::Net10 => "NET_10"@,
            PaymentTermType::Net15 => "NET_15"@,
            PaymentTermType::Net30 => "NET_30"@,
            PaymentTermType::Net45 => "NET_45"@,
            PaymentTermType::Net60 => "NET_60"@,
            PaymentTermType::Net90 => "NET_90"@,
            PaymentTermType::NoDueDate => "NO_DUE_DATE"@,
        }
    }

    /// Whether `s` is one of the documented tokens.
    pub open spec fn spec_is_token(s: Seq<char>) -> bool {
        ||| s == "DUE_ON_RECEIPT"@
        ||| s == "DUE_ON_DATE_SPECIFIED"@
        ||| s == "NET_10"@
        ||| s == "NET_15"@
        ||| s == "NET_30"@
        ||| s == "NET_45"@
        ||| s == "NET_60"@
        ||| s == "NET_90"@
        ||| s == "NO_DUE_DATE"@
    }
}

impl WireCodec for PaymentTermType {
    open spec fn encoding(self) -> Jv {
        Jv::Str(self.spec_token())
    }

    open spec fn can_decode(v: Jv) -> bool {
        match v {
            Jv::Str(s) => PaymentTermType::spec_is_token(s),
            _ => false,
        }
    }

    open spec fn decodes_to(v: Jv, t: Self) -> bool {
        v == Jv::Str(t.spec_token())
    }

    fn encode(&self) -> (r: JsonValue) {
        let tok = match self {
            PaymentTermType::DueOnReceipt => "DUE_ON_RECEIPT",
            PaymentTermType::DueOnDateSpecified => "DUE_ON_DATE_SPECIFIED",
            PaymentTermType::Net10 => "NET_10",
            PaymentTermType::Net15 => "NET_15",
            PaymentTermType::Net30 => "NET_30",
            PaymentTermType::Net45 => "NET_45",
            PaymentTermType::Net60 => "NET_60",
            PaymentTermType::Net90 => "NET_90",
            PaymentTermType::NoDueDate => "NO_DUE_DATE",
        };
        JsonValue::Str(tok.to_owned())
    }

    fn decode(v: &JsonValue) -> (r: Result<Self, DecodeError>)
        ensures
            match r {
                Err(DecodeError::UnknownToken(s)) => v@ == Jv::Str(s@)
                    && !PaymentTermType::spec_is_token(s@),
                Err(DecodeError::WrongType(_)) => !(v@ is Str),
                Err(DecodeError::MissingField(_)) => false,
                Ok(_) => true,
            },
    {
        match v {
            JsonValue::Str(s) => {
                let c = s.as_str();
                if str_eq(c, "DUE_ON_RECEIPT") {
                    Ok(PaymentTermType::DueOnReceipt)
                } else if str_eq(c, "DUE_ON_DATE_SPECIFIED") {
                    Ok(PaymentTermType::DueOnDateSpecified)
                } else if str_eq(c, "NET_10") {
                    Ok(PaymentTermType::Net10)
                } else if str_eq(c, "NET_15") {
                    Ok(PaymentTermType::Net15)
                } else if str_eq(c, "NET_30") {
                    Ok(PaymentTermType::Net30)
                } else if str_eq(c, "NET_45") {
                    Ok(PaymentTermType::Net45)
                } else if str_eq(c, "NET_60") {
                    Ok(PaymentTermType::Net60)
                } else if str_eq(c, "NET_90") {
                    Ok(PaymentTermType::Net90)
                } else if str_eq(c, "NO_DUE_DATE") {
                    Ok(PaymentTermType::NoDueDate)
                } else {
                    Err(DecodeError::UnknownToken(s.clone()))
                }
            },
            _ => Err(DecodeError::WrongType("string".to_owned())),
        }
    }

    proof fn lemma_round_trip(t: Self, u: Self) {
    }
}

impl PaymentTerm {
    /// The fields of this value's wire document, in emission order.
    pub open spec fn wire_fields(self) -> Seq<(Seq<char>, Jv)> {
        field_entry("term_type"@, self.term_type.encoding()) + opt_entry("due_date"@, self.due_date)
    }
}

impl WireCodec for PaymentTerm {
    open spec fn encoding(self) -> Jv {
        Jv::Object(self.wire_fields())
    }

    open spec fn can_decode(v: Jv) -> bool {
        match v {
            Jv::Object(fs) => {
                &&& req_ok::<PaymentTermType>(fs, "term_type"@)
                &&& opt_ok::<String>(fs, "due_date"@)
            },
            _ => false,
        }
    }

    open spec fn decodes_to(v: Jv, t: Self) -> bool {
        match v {
            Jv::Object(fs) => {
                &&& req_rel::<PaymentTermType>(fs, "term_type"@, t.term_type)
                &&& opt_rel::<String>(fs, "due_date"@, t.due_date)
            },
            _ => false,
        }
    }

    fn encode(&self) -> (r: JsonValue) {
        let mut fs: Vec<(String, JsonValue)> = Vec::new();
        fs.push(("term_type".to_owned(), self.term_type.encode()));
        if let Some(x) = &self.due_date {
            fs.push(("due_date".to_owned(), x.encode()));
        }
        proof {
            crate::json::lemma_jv_of_fields(fs@);
            assert(jv_of_fields(fs@) =~= (*self).wire_fields());
        }
        JsonValue::Object(fs)
    }

    fn decode(v: &JsonValue) -> (r: Result<Self, DecodeError>) {
        match v {
            JsonValue::Object(fields) => {
                let term_type = match get_req::<PaymentTermType>(fields, "term_type") {
                    Ok(x) => x,
                    Err(e) => return Err(e),
                };
                let due_date = match get_opt::<String>(fields, "due_date") {
                    Ok(x) => x,
                    Err(e) => return Err(e),
                };
                Ok(PaymentTerm { term_type, due_date })
            },
            _ => Err(DecodeError::WrongType("object".to_owned())),
        }
    }

    proof fn lemma_round_trip(t: Self, u: Self) {
        reveal_strlit("term_type");
        reveal_strlit("due_date");
        assert("term_type"@.len() == 9);
        assert("due_date"@.len() == 8);
        PaymentTermType::lemma_round_trip(t.term_type, u.term_type);
        if Self::decodes_to(t.encoding(), u) {
            assert(u.wire_fields() =~= t.wire_fields());
        }
    }
}

/// The flow variation that created an invoice.
#[derive(Debug, Clone, Copy, PartialEq, Eq)]
pub enum FlowType {
    /// The invoice was sent to multiple recipients.
    MultipleRecipientsGroup,
    /// The invoice was sent as a batch.
    Batch,
    /// The regular invoice was sent to a single recipient.
    RegularSingle,
}

impl FlowType {
    /// The wire token of this value.
    pub open spec fn spec_token(self) -> Seq<char> {
        match self {
            FlowType::MultipleRecipientsGroup => "MULTIPLE_RECIPIENTS_GROUP"@,
            FlowType::Batch => "BATCH"@,
            FlowType::RegularSingle => "REGULAR_SINGLE"@,
        }
    }

    /// Whether `s` is one of the documented tokens.
    pub open spec fn spec_is_token(s: Seq<char>) -> bool {
        s == "MULTIPLE_RECIPIENTS_GROUP"@ || s == "BATCH"@ || s == "REGULAR_SINGLE"@
    }
}

impl WireCodec for FlowType {
    open spec fn encoding(self) -> Jv {
        Jv::Str(self.spec_token())
    }

    open spec fn can_decode(v: Jv) -> bool {
        match v {
            Jv::Str(s) => FlowType::spec_is_token(s),
            _ => false,
        }
    }

    open spec fn decodes_to(v: Jv, t: Self) -> bool {
        v == Jv::Str(t.spec_token())
    }

    fn encode(&self) -> (r: JsonValue) {
        let tok = match self {
            FlowType::MultipleRecipientsGroup => "MULTIPLE_RECIPIENTS_GROUP",
            FlowType::Batch => "BATCH",
            FlowType::RegularSingle => "REGULAR_SINGLE",
        };
        JsonValue::Str(tok.to_owned())
    }

    fn decode(v: &JsonValue) -> (r: Result<Self, DecodeError>)
        ensures
            match r {
                Err(DecodeError::UnknownToken(s)) => v@ == Jv::Str(s@)
                    && !FlowType::spec_is_token(s@),
                Err(DecodeError::WrongType(_)) => !(v@ is Str),
                Err(DecodeError::MissingField(_)) => false,
                Ok(_) => true,
            },
    {
        match v {
            JsonValue::Str(s) => {
                let c = s.as_str();
                if str_eq(c, "MULTIPLE_RECIPIENTS_GROUP") {
                    Ok(FlowType::MultipleRecipientsGroup)
                } else if str_eq(c, "BATCH") {
                    Ok(FlowType::Batch)
                } else if str_eq(c, "REGULAR_SINGLE") {
                    Ok(FlowType::RegularSingle)
                } else {
                    Err(DecodeError::UnknownToken(s.clone()))
                }
            },
            _ => Err(DecodeError::WrongType("string".to_owned())),
        }
    }

    proof fn lemma_round_trip(t: Self, u: Self) {
    }
}

/// Audit metadata about a resource.
#[derive(Debug, Clone, PartialEq)]
pub struct Metadata {
    /// When the resource was created, as an ISO-8601 timestamp.
    pub create_time: Option<String>,
    /// The email address of the account that created the resource.
    pub created_by: Option<String>,
    /// When the resource was last edited, as an ISO-8601 timestamp.
    pub last_update_time: Option<String>,
    /// The account that last edited the resource.
    pub last_updated_by: Option<String>,
    /// When the resource was cancelled, as an ISO-8601 timestamp.
    pub cancel_time: Option<String>,
    /// The actor who cancelled the resource.
    pub cancelled_by: Option<String>,
    /// When the resource was first sent, as an ISO-8601 timestamp.
    pub first_sent_time: Option<String>,
    /// When the resource was last sent, as an ISO-8601 timestamp.
    pub last_sent_time: Option<String>,
    /// The email address of the account that last sent the resource.
    pub last_sent_by: Option<String>,
    /// The flow variation that created this invoice.
    pub created_by_flow: Option<FlowType>,
    /// The URL for the invoice payer view.
    pub recipient_view_url: Option<String>,
    /// The URL for the invoice merchant view.
    pub invoicer_view_url: Option<String>,
}

impl Metadata {
    /// The fields of this value's wire document, in emission order.
    pub open spec fn wire_fields(self) -> Seq<(Seq<char>, Jv)> {
        opt_entry("create_time"@, self.create_time) + opt_entry("created_by"@, self.created_by) + opt_entry("last_update_time"@, self.last_update_time) + opt_entry("last_updated_by"@, self.last_updated_by) + opt_entry("cancel_time"@, self.cancel_time) + opt_entry("cancelled_by"@, self.cancelled_by) + opt_entry("first_sent_time"@, self.first_sent_time) + opt_entry("last_sent_time"@, self.last_sent_time) + opt_entry("last_sent_by"@, self.last_sent_by) + opt_entry("created_by_flow"@, self.created_by_flow) + opt_entry("recipient_view_url"@, self.recipient_view_url) + opt_entry("invoicer_view_url"@, self.invoicer_view_url)
    }

    /// Where the `create_time` field stands in the wire document.
    proof fn lemma_lookup_create_time(t: Self)
        ensures
            lookup(t.wire_fields(), "create_time"@) == (match t.create_time {
                Some(x) => Some(x.encoding()),
                None => None::<Jv>,
            }),
    {
        reveal_strlit("create_time");
        reveal_strlit("created_by");
        reveal_strlit("last_update_time");
        reveal_strlit("last_updated_by");
        reveal_strlit("cancel_time");
        reveal_strlit("cancelled_by");
        reveal_strlit("first_sent_time");
        reveal_strlit("last_sent_time");
        reveal_strlit("last_sent_by");
        reveal_strlit("created_by_flow");
        reveal_strlit("recipient_view_url");
        reveal_strlit("invoicer_view_url");
        assert("create_time"@.len() == 11);
        assert("created_by"@.len() == 10);
        assert("last_update_time"@.len() == 16);
        assert("last_updated_by"@.len() == 15);
        assert("cancel_time"@.len() == 11);
        assert("cancelled_by"@.len() == 12);
        assert("first_sent_time"@.len() == 15);
        assert("last_sent_time"@.len() == 14);
        assert("last_sent_by"@.len() == 12);
        assert("created_by_flow"@.len() == 15);
        assert("recipient_view_url"@.len() == 18);
        assert("invoicer_view_url"@.len() == 17);
        assert("create_time"@[1] == 'r');
        assert("cancel_time"@[1] == 'a');
        assert("last_updated_by"@[0] == 'l');
        assert("first_sent_time"@[0] == 'f');
        assert("created_by_flow"@[0] == 'c');
        assert("cancelled_by"@[0] == 'c');
        assert("last_sent_by"@[0] == 'l');
    }

    /// Where the `created_by` field stands in the wire document.
    proof fn lemma_lookup_created_by(t: Self)
        ensures
            lookup(t.wire_fields(), "created_by"@) == (match t.created_by {
                Some(x) => Some(x.encoding()),
                None => None::<Jv>,
            }),
    {
        reveal_strlit("create_time");
        reveal_strlit("created_by");
        reveal_strlit("last_update_time");
        reveal_strlit("last_updated_by");
        reveal_strlit("cancel_time");
        reveal_strlit("cancelled_by");
        reveal_strlit("first_sent_time");
        reveal_strlit("last_sent_time");
        reveal_strlit("last_sent_by");
        reveal_strlit("created_by_flow");
        reveal_strlit("recipient_view_url");
        reveal_strlit("invoicer_view_url");
        assert("create_time"@.len() == 11);
        assert("created_by"@.len() == 10);
        assert("last_update_time"@.len() == 16);
        assert("last_updated_by"@.len() == 15);
        assert("cancel_time"@.len() == 11);
        assert("cancelled_by"@.len() == 12);
        assert("first_sent_time"@.len() == 15);
        assert("last_sent_time"@.len() == 14);
        assert("last_sent_by"@.len() == 12);
        assert("created_by_flow"@.len() == 15);
        assert("recipient_view_url"@.len() == 18);
        assert("invoicer_view_url"@.len() == 17);
        assert("create_time"@[1] == 'r');
        assert("cancel_time"@[1] == 'a');
        assert("last_updated_by"@[0] == 'l');
        assert("first_sent_time"@[0] == 'f');
        assert("created_by_flow"@[0] == 'c');
        assert("cancelled_by"@[0] == 'c');
        assert("last_sent_by"@[0] == 'l');
    }

    /// Where the `last_update_time` field stands in the wire document.
    proof fn lemma_lookup_last_update_time(t: Self)
        ensures
            lookup(t.wire_fields(), "last_update_time"@) == (match t.last_update_time {
                Some(x) => Some(x.encoding()),
                None => None::<Jv>,
            }),
    {
        reveal_strlit("create_time");
        reveal_strlit("created_by");
        reveal_strlit("last_update_time");
        reveal_strlit("last_updated_by");
        reveal_strlit("cancel_time");
        reveal_strlit("cancelled_by");
        reveal_strlit("first_sent_time");
        reveal_strlit("last_sent_time");
        reveal_strlit("last_sent_by");
        reveal_strlit("created_by_flow");
        reveal_strlit("recipient_view_url");
        reveal_strlit("invoicer_view_url");
        assert("create_time"@.len() == 11);
        assert("created_by"@.len() == 10);
        assert("last_update_time"@.len() == 16);
        assert("last_updated_by"@.len() == 15);
        assert("cancel_time"@.len() == 11);
        assert("cancelled_by"@.len() == 12);
        assert("first_sent_time"@.len() == 15);
        assert("last_sent_time"@.len() == 14);
        assert("last_sent_by"@.len() == 12);
        assert("created_by_flow"@.len() == 15);
        assert("recipient_view_url"@.len() == 18);
        assert("invoicer_view_url"@.len() == 17);
        assert("create_time"@[1] == 'r');
        assert("cancel_time"@[1] == 'a');
        assert("last_updated_by"@[0] == 'l');
        assert("first_sent_time"@[0] == 'f');
        assert("created_by_flow"@[0] == 'c');
        assert("cancelled_by"@[0] == 'c');
        assert("last_sent_by"@[0] == 'l');
    }

    /// Where the `last_updated_by` field stands in the wire document.
    proof fn lemma_lookup_last_updated_by(t: Self)
        ensures
            lookup(t.wire_fields(), "last_updated_by"@) == (match t.last_updated_by {
                Some(x) => Some(x.encoding()),
                None => None::<Jv>,
            }),
    {
        reveal_strlit("create_time");
        reveal_strlit("created_by");
        reveal_strlit("last_update_time");
        reveal_strlit("last_updated_by");
        reveal_strlit("cancel_time");
        reveal_strlit("cancelled_by");
        reveal_strlit("first_sent_time");
        reveal_strlit("last_sent_time");
        reveal_strlit("last_sent_by");
        reveal_strlit("created_by_flow");
        reveal_strlit("recipient_view_url");
        reveal_strlit("invoicer_view_url");
        assert("create_time"@.len() == 11);
        assert("created_by"@.len() == 10);
        assert("last_update_time"@.len() == 16);
        assert("last_updated_by"@.len() == 15);
        assert("cancel_time"@.len() == 11);
        assert("cancelled_by"@.len() == 12);
        assert("first_sent_time"@.len() == 15);
        assert("last_sent_time"@.len() == 14);
        assert("last_sent_by"@.len() == 12);
        assert("created_by_flow"@.len() == 15);
        assert("recipient_view_url"@.len() == 18);
        assert("invoicer_view_url"@.len() == 17);
        assert("create_time"@[1] == 'r');
        assert("cancel_time"@[1] == 'a');
        assert("last_updated_by"@[0] == 'l');
        assert("first_sent_time"@[0] == 'f');
        assert("created_by_flow"@[0] == 'c');
        assert("cancelled_by"@[0] == 'c');
        assert("last_sent_by"@[0] == 'l');
    }

    /// Where the `cancel_time` field stands in the wire document.
    proof fn lemma_lookup_cancel_time(t: Self)
        ensures
            lookup(t.wire_fields(), "cancel_time"@) == (match t.cancel_time {
                Some(x) => Some(x.encoding()),
                None => None::<Jv>,
            }),
    {
        reveal_strlit("create_time");
        reveal_strlit("created_by");
        reveal_strlit("last_update_time");
        reveal_strlit("last_updated_by");
        reveal_strlit("cancel_time");
        reveal_strlit("cancelled_by");
        reveal_strlit("first_sent_time");
        reveal_strlit("last_sent_time");
        reveal_strlit("last_sent_by");
        reveal_strlit("created_by_flow");
        reveal_strlit("recipient_view_url");
        reveal_strlit("invoicer_view_url");
        assert("create_time"@.len() == 11);
        assert("created_by"@.len() == 10);
        assert("last_update_time"@.len() == 16);
        assert("last_updated_by"@.len() == 15);
        assert("cancel_time"@.len() == 11);
        assert("cancelled_by"@.len() == 12);
        assert("first_sent_time"@.len() == 15);
        assert("last_sent_time"@.len() == 14);
        assert("last_sent_by"@.len() == 12);
        assert("created_by_flow"@.len() == 15);
        assert("recipient_view_url"@.len() == 18);
        assert("invoicer_view_url"@.len() == 17);
        assert("create_time"@[1] == 'r');
        assert("cancel_time"@[1] == 'a');
        assert("last_updated_by"@[0] == 'l');
        assert("first_sent_time"@[0] == 'f');
        assert("created_by_flow"@[0] == 'c');
        assert("cancelled_by"@[0] == 'c');
        assert("last_sent_by"@[0] == 'l');
    }

    /// Where the `cancelled_by` field stands in the wire document.
    proof fn lemma_lookup_cancelled_by(t: Self)
        ensures
            lookup(t.wire_fields(), "cancelled_by"@) == (match t.cancelled_by {
                Some(x) => Some(x.encoding()),
                None => None::<Jv>,
            }),
    {
        reveal_strlit("create_time");
        reveal_strlit("created_by");
        reveal_strlit("last_update_time");
        reveal_strlit("last_updated_by");
        reveal_strlit("cancel_time");
        reveal_strlit("cancelled_by");
        reveal_strlit("first_sent_time");
        reveal_strlit("last_sent_time");
        reveal_strlit("last_sent_by");
        reveal_strlit("created_by_flow");
        reveal_strlit("recipient_view_url");
        reveal_strlit("invoicer_view_url");
        assert("create_time"@.len() == 11);
        assert("created_by"@.len() == 10);
        assert("last_update_time"@.len() == 16);
        assert("last_updated_by"@.len() == 15);
        assert("cancel_time"@.len() == 11);
        assert("cancelled_by"@.len() == 12);
        assert("first_sent_time"@.len() == 15);
        assert("last_sent_time"@.len() == 14);
        assert("last_sent_by"@.len() == 12);
        assert("created_by_flow"@.len() == 15);
        assert("recipient_view_url"@.len() == 18);
        assert("invoicer_view_url"@.len() == 17);
        assert("create_time"@[1] == 'r');
        assert("cancel_time"@[1] == 'a');
        assert("last_updated_by"@[0] == 'l');
        assert("first_sent_time"@[0] == 'f');
        assert("created_by_flow"@[0] == 'c');
        assert("cancelled_by"@[0] == 'c');
        assert("last_sent_by"@[0] == 'l');
    }

    /// Where the `first_sent_time` field stands in the wire document.
    proof fn lemma_lookup_first_sent_time(t: Self)
        ensures
            lookup(t.wire_fields(), "first_sent_time"@) == (match t.first_sent_time {
                Some(x) => Some(x.encoding()),
                None => None::<Jv>,
            }),
    {
        reveal_strlit("create_time");
        reveal_strlit("created_by");
        reveal_strlit("last_update_time");
        reveal_strlit("last_updated_by");
        reveal_strlit("cancel_time");
        reveal_strlit("cancelled_by");
        reveal_strlit("first_sent_time");
        reveal_strlit("last_sent_time");
        reveal_strlit("last_sent_by");
        reveal_strlit("created_by_flow");
        reveal_strlit("recipient_view_url");
        reveal_strlit("invoicer_view_url");
        assert("create_time"@.len() == 11);
        assert("created_by"@.len() == 10);
        assert("last_update_time"@.len() == 16);
        assert("last_updated_by"@.len() == 15);
        assert("cancel_time"@.len() == 11);
        assert("cancelled_by"@.len() == 12);
        assert("first_sent_time"@.len() == 15);
        assert("last_sent_time"@.len() == 14);
        assert("last_sent_by"@.len() == 12);
        assert("created_by_flow"@.len() == 15);
        assert("recipient_view_url"@.len() == 18);
        assert("invoicer_view_url"@.len() == 17);
        assert("create_time"@[1] == 'r');
        assert("cancel_time"@[1] == 'a');
        assert("last_updated_by"@[0] == 'l');
        assert("first_sent_time"@[0] == 'f');
        assert("created_by_flow"@[0] == 'c');
        assert("cancelled_by"@[0] == 'c');
        assert("last_sent_by"@[0] == 'l');
    }

    /// Where the `last_sent_time` field stands in the wire document.
    proof fn lemma_lookup_last_sent_time(t: Self)
        ensures
            lookup(t.wire_fields(), "last_sent_time"@) == (match t.last_sent_time {
                Some(x) => Some(x.encoding()),
                None => None::<Jv>,
            }),
    {
        reveal_strlit("create_time");
        reveal_strlit("created_by");
        reveal_strlit("last_update_time");
        reveal_strlit("last_updated_by");
        reveal_strlit("cancel_time");
        reveal_strlit("cancelled_by");
        reveal_strlit("first_sent_time");
        reveal_strlit("last_sent_time");
        reveal_strlit("last_sent_by");
        reveal_strlit("created_by_flow");
        reveal_strlit("recipient_view_url");
        reveal_strlit("invoicer_view_url");
        assert("create_time"@.len() == 11);
        assert("created_by"@.len() == 10);
        assert("last_update_time"@.len() == 16);
        assert("last_updated_by"@.len() == 15);
        assert("cancel_time"@.len() == 11);
        assert("cancelled_by"@.len() == 12);
        assert("first_sent_time"@.len() == 15);
        assert("last_sent_time"@.len() == 14);
        assert("last_sent_by"@.len() == 12);
        assert("created_by_flow"@.len() == 15);
        assert("recipient_view_url"@.len() == 18);
        assert("invoicer_view_url"@.len() == 17);
        assert("create_time"@[1] == 'r');
        assert("cancel_time"@[1] == 'a');
        assert("last_updated_by"@[0] == 'l');
        assert("first_sent_time"@[0] == 'f');
        assert("created_by_flow"@[0] == 'c');
        assert("cancelled_by"@[0] == 'c');
        assert("last_sent_by"@[0] == 'l');
    }

    /// Where the `last_sent_by` field stands in the wire document.
    proof fn lemma_lookup_last_sent_by(t: Self)
        ensures
            lookup(t.wire_fields(), "last_sent_by"@) == (match t.last_sent_by {
                Some(x) => Some(x.encoding()),
                None => None::<Jv>,
            }),
    {
        reveal_strlit("create_time");
        reveal_strlit("created_by");
        reveal_strlit("last_update_time");
        reveal_strlit("last_updated_by");
        reveal_strlit("cancel_time");
        reveal_strlit("cancelled_by");
        reveal_strlit("first_sent_time");
        reveal_strlit("last_sent_time");
        reveal_strlit("last_sent_by");
        reveal_strlit("created_by_flow");
        reveal_strlit("recipient_view_url");
        reveal_strlit("invoicer_view_url");
        assert("create_time"@.len() == 11);
        assert("created_by"@.len() == 10);
        assert("last_update_time"@.len() == 16);
        assert("last_updated_by"@.len() == 15);
        assert("cancel_time"@.len() == 11);
        assert("cancelled_by"@.len() == 12);
        assert("first_sent_time"@.len() == 15);
        assert("last_sent_time"@.len() == 14);
        assert("last_sent_by"@.len() == 12);
        assert("created_by_flow"@.len() == 15);
        assert("recipient_view_url"@.len() == 18);
        assert("invoicer_view_url"@.len() == 17);
        assert("create_time"@[1] == 'r');
        assert("cancel_time"@[1] == 'a');
        assert("last_updated_by"@[0] == 'l');
        assert("first_sent_time"@[0] == 'f');
        assert("created_by_flow"@[0] == 'c');
        assert("cancelled_by"@[0] == 'c');
        assert("last_sent_by"@[0] == 'l');
    }

    /// Where the `created_by_flow` field stands in the wire document.
    proof fn lemma_lookup_created_by_flow(t: Self)
        ensures
            lookup(t.wire_fields(), "created_by_flow"@) == (match t.created_by_flow {
                Some(x) => Some(x.encoding()),
                None => None::<Jv>,
            }),
    {
        reveal_strlit("create_time");
        reveal_strlit("created_by");
        reveal_strlit("last_update_time");
        reveal_strlit("last_updated_by");
        reveal_strlit("cancel_time");
        reveal_strlit("cancelled_by");
        reveal_strlit("first_sent_time");
        reveal_strlit("last_sent_time");
        reveal_strlit("last_sent_by");
        reveal_strlit("created_by_flow");
        reveal_strlit("recipient_view_url");
        reveal_strlit("invoicer_view_url");
        assert("create_time"@.len() == 11);
        assert("created_by"@.len() == 10);
        assert("last_update_time"@.len() == 16);
        assert("last_updated_by"@.len() == 15);
        assert("cancel_time"@.len() == 11);
        assert("cancelled_by"@.len() == 12);
        assert("first_sent_time"@.len() == 15);
        assert("last_sent_time"@.len() == 14);
        assert("last_sent_by"@.len() == 12);
        assert("created_by_flow"@.len() == 15);
        assert("recipient_view_url"@.len() == 18);
        assert("invoicer_view_url"@.len() == 17);
        assert("create_time"@[1] == 'r');
        assert("cancel_time"@[1] == 'a');
        assert("last_updated_by"@[0] == 'l');
        assert("first_sent_time"@[0] == 'f');
        assert("created_by_flow"@[0] == 'c');
        assert("cancelled_by"@[0] == 'c');
        assert("last_sent_by"@[0] == 'l');
    }

    /// Where the `recipient_view_url` field stands in the wire document.
    proof fn lemma_lookup_recipient_view_url(t: Self)
        ensures
            lookup(t.wire_fields(), "recipient_view_url"@) == (match t.recipient_view_url {
                Some(x) => Some(x.encoding()),
                None => None::<Jv>,
            }),
    {
        reveal_strlit("create_time");
        reveal_strlit("created_by");
        reveal_strlit("last_update_time");
        reveal_strlit("last_updated_by");
        reveal_strlit("cancel_time");
        reveal_strlit("cancelled_by");
        reveal_strlit("first_sent_time");
        reveal_strlit("last_sent_time");
        reveal_strlit("last_sent_by");
        reveal_strlit("created_by_flow");
        reveal_strlit("recipient_view_url");
        reveal_strlit("invoicer_view_url");
        assert("create_time"@.len() == 11);
        assert("created_by"@.len() == 10);
        assert("last_update_time"@.len() == 16);
        assert("last_updated_by"@.len() == 15);
        assert("cancel_time"@.len() == 11);
        assert("cancelled_by"@.len() == 12);
        assert("first_sent_time"@.len() == 15);
        assert("last_sent_time"@.len() == 14);
        assert("last_sent_by"@.len() == 12);
        assert("created_by_flow"@.len() == 15);
        assert("recipient_view_url"@.len() == 18);
        assert("invoicer_view_url"@.len() == 17);
        assert("create_time"@[1] == 'r');
        assert("cancel_time"@[1] == 'a');
        assert("last_updated_by"@[0] == 'l');
        assert("first_sent_time"@[0] == 'f');
        assert("created_by_flow"@[0] == 'c');
        assert("cancelled_by"@[0] == 'c');
        assert("last_sent_by"@[0] == 'l');
    }

    /// Where the `invoicer_view_url` field stands in the wire document.
    proof fn lemma_lookup_invoicer_view_url(t: Self)
        ensures
            lookup(t.wire_fields(), "invoicer_view_url"@) == (match t.invoicer_view_url {
                Some(x) => Some(x.encoding()),
                None => None::<Jv>,
            }),
    {
        reveal_strlit("create_time");
        reveal_strlit("created_by");
        reveal_strlit("last_update_time");
        reveal_strlit("last_updated_by");
        reveal_strlit("cancel_time");
        reveal_strlit("cancelled_by");
        reveal_strlit("first_sent_time");
        reveal_strlit("last_sent_time");
        reveal_strlit("last_sent_by");
        reveal_strlit("created_by_flow");
        reveal_strlit("recipient_view_url");
        reveal_strlit("invoicer_view_url");
        assert("create_time"@.len() == 11);
        assert("created_by"@.len() == 10);
        assert("last_update_time"@.len() == 16);
        assert("last_updated_by"@.len() == 15);
        assert("cancel_time"@.len() == 11);
        assert("cancelled_by"@.len() == 12);
        assert("first_sent_time"@.len() == 15);
        assert("last_sent_time"@.len() == 14);
        assert("last_sent_by"@.len() == 12);
        assert("created_by_flow"@.len() == 15);
        assert("recipient_view_url"@.len() == 18);
        assert("invoicer_view_url"@.len() == 17);
        assert("create_time"@[1] == 'r');
        assert("cancel_time"@[1] == 'a');
        assert("last_updated_by"@[0] == 'l');
        assert("first_sent_time"@[0] == 'f');
        assert("created_by_flow"@[0] == 'c');
        assert("cancelled_by"@[0] == 'c');
        assert("last_sent_by"@[0] == 'l');
    }
}

impl WireCodec for Metadata {
    open spec fn encoding(self) -> Jv {
        Jv::Object(self.wire_fields())
    }

    open spec fn can_decode(v: Jv) -> bool {
        match v {
            Jv::Object(fs) => {
                &&& opt_ok::<String>(fs, "create_time"@)
                &&& opt_ok::<String>(fs, "created_by"@)
                &&& opt_ok::<String>(fs, "last_update_time"@)
                &&& opt_ok::<String>(fs, "last_updated_by"@)
                &&& opt_ok::<String>(fs, "cancel_time"@)
                &&& opt_ok::<String>(fs, "cancelled_by"@)
                &&& opt_ok::<String>(fs, "first_sent_time"@)
                &&& opt_ok::<String>(fs, "last_sent_time"@)
                &&& opt_ok::<String>(fs, "last_sent_by"@)
                &&& opt_ok::<FlowType>(fs, "created_by_flow"@)
                &&& opt_ok::<String>(fs, "recipient_view_url"@)
                &&& opt_ok::<String>(fs, "invoicer_view_url"@)
            },
            _ => false,
        }
    }

    open spec fn decodes_to(v: Jv, t: Self) -> bool {
        match v {
            Jv::Object(fs) => {
                &&& opt_rel::<String>(fs, "create_time"@, t.create_time)
                &&& opt_rel::<String>(fs, "created_by"@, t.created_by)
                &&& opt_rel::<String>(fs, "last_update_time"@, t.last_update_time)
                &&& opt_rel::<String>(fs, "last_updated_by"@, t.last_updated_by)
                &&& opt_rel::<String>(fs, "cancel_time"@, t.cancel_time)
                &&& opt_rel::<String>(fs, "cancelled_by"@, t.cancelled_by)
                &&& opt_rel::<String>(fs, "first_sent_time"@, t.first_sent_time)
                &&& opt_rel::<String>(fs, "last_sent_time"@, t.last_sent_time)
                &&& opt_rel::<String>(fs, "last_sent_by"@, t.last_sent_by)
                &&& opt_rel::<FlowType>(fs, "created_by_flow"@, t.created_by_flow)
                &&& opt_rel::<String>(fs, "recipient_view_url"@, t.recipient_view_url)
                &&& opt_rel::<String>(fs, "invoicer_view_url"@, t.invoicer_view_url)
            },
            _ => false,
        }
    }

    fn encode(&self) -> (r: JsonValue) {
        let mut fs: Vec<(String, JsonValue)> = Vec::new();
        push_opt(&mut fs, "create_time", &self.create_time);
        push_opt(&mut fs, "created_by", &self.created_by);
        push_opt(&mut fs, "last_update_time", &self.last_update_time);
        push_opt(&mut fs, "last_updated_by", &self.last_updated_by);
        push_opt(&mut fs, "cancel_time", &self.cancel_time);
        push_opt(&mut fs, "cancelled_by", &self.cancelled_by);
        push_opt(&mut fs, "first_sent_time", &self.first_sent_time);
        push_opt(&mut fs, "last_sent_time", &self.last_sent_time);
        push_opt(&mut fs, "last_sent_by", &self.last_sent_by);
        push_opt(&mut fs, "created_by_flow", &self.created_by_flow);
        push_opt(&mut fs, "recipient_view_url", &self.recipient_view_url);
        push_opt(&mut fs, "invoicer_view_url", &self.invoicer_view_url);
        proof {
            crate::json::lemma_concat_left_empty(opt_entry("create_time"@, (*self).create_time));
            assert(jv_of_fields(fs@) == (*self).wire_fields());
        }
        JsonValue::Object(fs)
    }

    fn decode(v: &JsonValue) -> (r: Result<Self, DecodeError>) {
        match v {
            JsonValue::Object(fields) => {
                let create_time = match get_opt::<String>(fields, "create_time") {
                    Ok(x) => x,
                    Err(e) => return Err(e),
                };
                let created_by = match get_opt::<String>(fields, "created_by") {
                    Ok(x) => x,
                    Err(e) => return Err(e),
                };
                let last_update_time = match get_opt::<String>(fields, "last_update_time") {
                    Ok(x) => x,
                    Err(e) => return Err(e),
                };
                let last_updated_by = match get_opt::<String>(fields, "last_updated_by") {
                    Ok(x) => x,
                    Err(e) => return Err(e),
                };
                let cancel_time = match get_opt::<String>(fields, "cancel_time") {
                    Ok(x) => x,
                    Err(e) => return Err(e),
                };
                let cancelled_by = match get_opt::<String>(fields, "cancelled_by") {
                    Ok(x) => x,
                    Err(e) => return Err(e),
                };
                let first_sent_time = match get_opt::<String>(fields, "first_sent_time") {
                    Ok(x) => x,
                    Err(e) => return Err(e),
                };
                let last_sent_time = match get_opt::<String>(fields, "last_sent_time") {
                    Ok(x) => x,
                    Err(e) => return Err(e),
                };
                let last_sent_by = match get_opt::<String>(fields, "last_sent_by") {
                    Ok(x) => x,
                    Err(e) => return Err(e),
                };
                let created_by_flow = match get_opt::<FlowType>(fields, "created_by_flow") {
                    Ok(x) => x,
                    Err(e) => return Err(e),
                };
                let recipient_view_url = match get_opt::<String>(fields, "recipient_view_url") {
                    Ok(x) => x,
                    Err(e) => return Err(e),
                };
                let invoicer_view_url = match get_opt::<String>(fields, "invoicer_view_url") {
                    Ok(x) => x,
                    Err(e) => return Err(e),
                };
                Ok(Metadata { create_time, created_by, last_update_time, last_updated_by, cancel_time, cancelled_by, first_sent_time, last_sent_time, last_sent_by, created_by_flow, recipient_view_url, invoicer_view_url })
            },
            _ => Err(DecodeError::WrongType("object".to_owned())),
        }
    }

    #[verifier::rlimit(100)]
    proof fn lemma_round_trip(t: Self, u: Self) {
        Self::lemma_lookup_create_time(t);
        Self::lemma_lookup_created_by(t);
        Self::lemma_lookup_last_update_time(t);
        Self::lemma_lookup_last_updated_by(t);
        Self::lemma_lookup_cancel_time(t);
        Self::lemma_lookup_cancelled_by(t);
        Self::lemma_lookup_first_sent_time(t);
        Self::lemma_lookup_last_sent_time(t);
        Self::lemma_lookup_last_sent_by(t);
        Self::lemma_lookup_created_by_flow(t);
        Self::lemma_lookup_recipient_view_url(t);
        Self::lemma_lookup_invoicer_view_url(t);
        if let Some(x) = t.created_by_flow {
            FlowType::lemma_round_trip(x, x);
        }
        if Self::decodes_to(t.encoding(), u) {
            if let (Some(x), Some(y)) = (t.created_by_flow, u.created_by_flow) {
                FlowType::lemma_round_trip(x, y);
            }
            assert(opt_entry("create_time"@, u.create_time) == opt_entry("create_time"@, t.create_time));
            assert(opt_entry("created_by"@, u.created_by) == opt_entry("created_by"@, t.created_by));
            assert(opt_entry("last_update_time"@, u.last_update_time) == opt_entry("last_update_time"@, t.last_update_time));
            assert(opt_entry("last_updated_by"@, u.last_updated_by) == opt_entry("last_updated_by"@, t.last_updated_by));
            assert(opt_entry("cancel_time"@, u.cancel_time) == opt_entry("cancel_time"@, t.cancel_time));
            assert(opt_entry("cancelled_by"@, u.cancelled_by) == opt_entry("cancelled_by"@, t.cancelled_by));
            assert(opt_entry("first_sent_time"@, u.first_sent_time) == opt_entry("first_sent_time"@, t.first_sent_time));
            assert(opt_entry("last_sent_time"@, u.last_sent_time) == opt_entry("last_sent_time"@, t.last_sent_time));
            assert(opt_entry("last_sent_by"@, u.last_sent_by) == opt_entry("last_sent_by"@, t.last_sent_by));
            assert(opt_entry("created_by_flow"@, u.created_by_flow) == opt_entry("created_by_flow"@, t.created_by_flow));
            assert(opt_entry("recipient_view_url"@, u.recipient_view_url) == opt_entry("recipient_view_url"@, t.recipient_view_url));
            assert(opt_entry("invoicer_view_url"@, u.invoicer_view_url) == opt_entry("invoicer_view_url"@, t.invoicer_view_url));
            assert(u.wire_fields() == t.wire_fields());
        }
    }
}

/// The details of the invoice: number, date, payment terms and audit
/// metadata.
#[derive(Debug, Clone, PartialEq)]
pub struct InvoiceDetail {
    /// The reference data, such as a purchase order number.
    pub reference: Option<String>,
    /// The three-character ISO-4217 currency code that identifies the currency.
    pub currency_code: Currency,
    /// A note to the invoice recipient.
    pub note: Option<String>,
    /// The general terms of the invoice.
    pub terms_and_conditions: Option<String>,
    /// A private bookkeeping memo for the user.
    pub memo: Option<String>,
    /// PayPal IDs for files attached to the invoice.
    pub attachments: Option<Vec<FileReference>>,
    /// The invoice number.
    pub invoice_number: Option<String>,
    /// The invoice date as specified by the sender, as a calendar date.
    pub invoice_date: Option<String>,
    /// The payment due date for the invoice.
    pub payment_term: Option<PaymentTerm>,
    /// The audit metadata.
    pub metadata: Option<Metadata>,
}

impl InvoiceDetail {
    /// The fields of this value's wire document, in emission order.
    pub open spec fn wire_fields(self) -> Seq<(Seq<char>, Jv)> {
        opt_entry("reference"@, self.reference) + field_entry("currency_code"@, self.currency_code.encoding()) + opt_entry("note"@, self.note) + opt_entry("terms_and_conditions"@, self.terms_and_conditions) + opt_entry("memo"@, self.memo) + opt_entry("attachments"@, self.attachments) + opt_entry("invoice_number"@, self.invoice_number) + opt_entry("invoice_date"@, self.invoice_date) + opt_entry("payment_term"@, self.payment_term) + opt_entry("metadata"@, self.metadata)
    }

    /// Where the `reference` field stands in the wire document.
    proof fn lemma_lookup_reference(t: Self)
        ensures
            lookup(t.wire_fields(), "reference"@) == (match t.reference {
                Some(x) => Some(x.encoding()),
                None => None::<Jv>,
            }),
    {
        reveal_strlit("reference");
        reveal_strlit("currency_code");
        reveal_strlit("note");
        reveal_strlit("terms_and_conditions");
        reveal_strlit("memo");
        reveal_strlit("attachments");
        reveal_strlit("invoice_number");
        reveal_strlit("invoice_date");
        reveal_strlit("payment_term");
        reveal_strlit("metadata");
        assert("reference"@.len() == 9);
        assert("currency_code"@.len() == 13);
        assert("note"@.len() == 4);
        assert("terms_and_conditions"@.len() == 20);
        assert("memo"@.len() == 4);
        assert("attachments"@.len() == 11);
        assert("invoice_number"@.len() == 14);
        assert("invoice_date"@.len() == 12);
        assert("payment_term"@.len() == 12);
        assert("metadata"@.len() == 8);
        assert("note"@[0] == 'n');
        assert("memo"@[0] == 'm');
        assert("invoice_date"@[0] == 'i');
        assert("payment_term"@[0] == 'p');
    }

    /// Where the `currency_code` field stands in the wire document.
    proof fn lemma_lookup_currency_code(t: Self)
        ensures
            lookup(t.wire_fields(), "currency_code"@) == Some(t.currency_code.encoding()),
    {
        reveal_strlit("reference");
        reveal_strlit("currency_code");
        reveal_strlit("note");
        reveal_strlit("terms_and_conditions");
        reveal_strlit("memo");
        reveal_strlit("attachments");
        reveal_strlit("invoice_number");
        reveal_strlit("invoice_date");
        reveal_strlit("payment_term");
        reveal_strlit("metadata");
        assert("reference"@.len() == 9);
        assert("currency_code"@.len() == 13);
        assert("note"@.len() == 4);
        assert("terms_and_conditions"@.len() == 20);
        assert("memo"@.len() == 4);
        assert("attachments"@.len() == 11);
        assert("invoice_number"@.len() == 14);
        assert("invoice_date"@.len() == 12);
        assert("payment_term"@.len() == 12);
        assert("metadata"@.len() == 8);
        assert("note"@[0] == 'n');
        assert("memo"@[0] == 'm');
        assert("invoice_date"@[0] == 'i');
        assert("payment_term"@[0] == 'p');
    }

    /// Where the `note` field stands in the wire document.
    proof fn lemma_lookup_note(t: Self)
        ensures
            lookup(t.wire_fields(), "note"@) == (match t.note {
                Some(x) => Some(x.encoding()),
                None => None::<Jv>,
            }),
    {
        reveal_strlit("reference");
        reveal_strlit("currency_code");
        reveal_strlit("note");
        reveal_strlit("terms_and_conditions");
        reveal_strlit("memo");
        reveal_strlit("attachments");
        reveal_strlit("invoice_number");
        reveal_strlit("invoice_date");
        reveal_strlit("payment_term");
        reveal_strlit("metadata");
        assert("reference"@.len() == 9);
        assert("currency_code"@.len() == 13);
        assert("note"@.len() == 4);
        assert("terms_and_conditions"@.len() == 20);
        assert("memo"@.len() == 4);
        assert("attachments"@.len() == 11);
        assert("invoice_number"@.len() == 14);
        assert("invoice_date"@.len() == 12);
        assert("payment_term"@.len() == 12);
        assert("metadata"@.len() == 8);
        assert("note"@[0] == 'n');
        assert("memo"@[0] == 'm');
        assert("invoice_date"@[0] == 'i');
        assert("payment_term"@[0] == 'p');
    }

    /// Where the `terms_and_conditions` field stands in the wire document.
    proof fn lemma_lookup_terms_and_conditions(t: Self)
        ensures
            lookup(t.wire_fields(), "terms_and_conditions"@) == (match t.terms_and_conditions {
                Some(x) => Some(x.encoding()),
                None => None::<Jv>,
            }),
    {
        reveal_strlit("reference");
        reveal_strlit("currency_code");
        reveal_strlit("note");
        reveal_strlit("terms_and_conditions");
        reveal_strlit("memo");
        reveal_strlit("attachments");
        reveal_strlit("invoice_number");
        reveal_strlit("invoice_date");
        reveal_strlit("payment_term");
        reveal_strlit("metadata");
        assert("reference"@.len() == 9);
        assert("currency_code"@.len() == 13);
        assert("note"@.len() == 4);
        assert("terms_and_conditions"@.len() == 20);
        assert("memo"@.len() == 4);
        assert("attachments"@.len() == 11);
        assert("invoice_number"@.len() == 14);
        assert("invoice_date"@.len() == 12);
        assert("payment_term"@.len() == 12);
        assert("metadata"@.len() == 8);
        assert("note"@[0] == 'n');
        assert("memo"@[0] == 'm');
        assert("invoice_date"@[0] == 'i');
        assert("payment_term"@[0] == 'p');
    }

    /// Where the `memo` field stands in the wire document.
    proof fn lemma_lookup_memo(t: Self)
        ensures
            lookup(t.wire_fields(), "memo"@) == (match t.memo {
                Some(x) => Some(x.encoding()),
                None => None::<Jv>,
            }),
    {
        reveal_strlit("reference");
        reveal_strlit("currency_code");
        reveal_strlit("note");
        reveal_strlit("terms_and_conditions");
        reveal_strlit("memo");
        reveal_strlit("attachments");
        reveal_strlit("invoice_number");
        reveal_strlit("invoice_date");
        reveal_strlit("payment_term");
        reveal_strlit("metadata");
        assert("reference"@.len() == 9);
        assert("currency_code"@.len() == 13);
        assert("note"@.len() == 4);
        assert("terms_and_conditions"@.len() == 20);
        assert("memo"@.len() == 4);
        assert("attachments"@.len() == 11);
        assert("invoice_number"@.len() == 14);
        assert("invoice_date"@.len() == 12);
        assert("payment_term"@.len() == 12);
        assert("metadata"@.len() == 8);
        assert("note"@[0] == 'n');
        assert("memo"@[0] == 'm');
        assert("invoice_date"@[0] == 'i');
        assert("payment_term"@[0] == 'p');
    }

    /// Where the `attachments` field stands in the wire document.
    proof fn lemma_lookup_attachments(t: Self)
        ensures
            lookup(t.wire_fields(), "attachments"@) == (match t.attachments {
                Some(x) => Some(x.encoding()),
                None => None::<Jv>,
            }),
    {
        reveal_strlit("reference");
        reveal_strlit("currency_code");
        reveal_strlit("note");
        reveal_strlit("terms_and_conditions");
        reveal_strlit("memo");
        reveal_strlit("attachments");
        reveal_strlit("invoice_number");
        reveal_strlit("invoice_date");
        reveal_strlit("payment_term");
        reveal_strlit("metadata");
        assert("reference"@.len() == 9);
        assert("currency_code"@.len() == 13);
        assert("note"@.len() == 4);
        assert("terms_and_conditions"@.len() == 20);
        assert("memo"@.len() == 4);
        assert("attachments"@.len() == 11);
        assert("invoice_number"@.len() == 14);
        assert("invoice_date"@.len() == 12);
        assert("payment_term"@.len() == 12);
        assert("metadata"@.len() == 8);
        assert("note"@[0] == 'n');
        assert("memo"@[0] == 'm');
        assert("invoice_date"@[0] == 'i');
        assert("payment_term"@[0] == 'p');
    }

    /// Where the `invoice_number` field stands in the wire document.
    proof fn lemma_lookup_invoice_number(t: Self)
        ensures
            lookup(t.wire_fields(), "invoice_number"@) == (match t.invoice_number {
                Some(x) => Some(x.encoding()),
                None => None::<Jv>,
            }),
    {
        reveal_strlit("reference");
        reveal_strlit("currency_code");
        reveal_strlit("note");
        reveal_strlit("terms_and_conditions");
        reveal_strlit("memo");
        reveal_strlit("attachments");
        reveal_strlit("invoice_number");
        reveal_strlit("invoice_date");
        reveal_strlit("payment_term");
        reveal_strlit("metadata");
        assert("reference"@.len() == 9);
        assert("currency_code"@.len() == 13);
        assert("note"@.len() == 4);
        assert("terms_and_conditions"@.len() == 20);
        assert("memo"@.len() == 4);
        assert("attachments"@.len() == 11);
        assert("invoice_number"@.len() == 14);
        assert("invoice_date"@.len() == 12);
        assert("payment_term"@.len() == 12);
        assert("metadata"@.len() == 8);
        assert("note"@[0] == 'n');
        assert("memo"@[0] == 'm');
        assert("invoice_date"@[0] == 'i');
        assert("payment_term"@[0] == 'p');
    }

    /// Where the `invoice_date` field stands in the wire document.
    proof fn lemma_lookup_invoice_date(t: Self)
        ensures
            lookup(t.wire_fields(), "invoice_date"@) == (match t.invoice_date {
                Some(x) => Some(x.encoding()),
                None => None::<Jv>,
            }),
    {
        reveal_strlit("reference");
        reveal_strlit("currency_code");
        reveal_strlit("note");
        reveal_strlit("terms_and_conditions");
        reveal_strlit("memo");
        reveal_strlit("attachments");
        reveal_strlit("invoice_number");
        reveal_strlit("invoice_date");
        reveal_strlit("payment_term");
        reveal_strlit("metadata");
        assert("reference"@.len() == 9);
        assert("currency_code"@.len() == 13);
        assert("note"@.len() == 4);
        assert("terms_and_conditions"@.len() == 20);
        assert("memo"@.len() == 4);
        assert("attachments"@.len() == 11);
        assert("invoice_number"@.len() == 14);
        assert("invoice_date"@.len() == 12);
        assert("payment_term"@.len() == 12);
        assert("metadata"@.len() == 8);
        assert("note"@[0] == 'n');
        assert("memo"@[0] == 'm');
        assert("invoice_date"@[0] == 'i');
        assert("payment_term"@[0] == 'p');
    }

    /// Where the `payment_term` field stands in the wire document.
    proof fn lemma_lookup_payment_term(t: Self)
        ensures
            lookup(t.wire_fields(), "payment_term"@) == (match t.payment_term {
                Some(x) => Some(x.encoding()),
                None => None::<Jv>,
            }),
    {
        reveal_strlit("reference");
        reveal_strlit("currency_code");
        reveal_strlit("note");
        reveal_strlit("terms_and_conditions");
        reveal_strlit("memo");
        reveal_strlit("attachments");
        reveal_strlit("invoice_number");
        reveal_strlit("invoice_date");
        reveal_strlit("payment_term");
        reveal_strlit("metadata");
        assert("reference"@.len() == 9);
        assert("currency_code"@.len() == 13);
        assert("note"@.len() == 4);
        assert("terms_and_conditions"@.len() == 20);
        assert("memo"@.len() == 4);
        assert("attachments"@.len() == 11);
        assert("invoice_number"@.len() == 14);
        assert("invoice_date"@.len() == 12);
        assert("payment_term"@.len() == 12);
        assert("metadata"@.len() == 8);
        assert("note"@[0] == 'n');
        assert("memo"@[0] == 'm');
        assert("invoice_date"@[0] == 'i');
        assert("payment_term"@[0] == 'p');
    }

    /// Where the `metadata` field stands in the wire document.
    proof fn lemma_lookup_metadata(t: Self)
        ensures
            lookup(t.wire_fields(), "metadata"@) == (match t.metadata {
                Some(x) => Some(x.encoding()),
                None => None::<Jv>,
            }),
    {
        reveal_strlit("reference");
        reveal_strlit("currency_code");
        reveal_strlit("note");
        reveal_strlit("terms_and_conditions");
        reveal_strlit("memo");
        reveal_strlit("attachments");
        reveal_strlit("invoice_number");
        reveal_strlit("invoice_date");
        reveal_strlit("payment_term");
        reveal_strlit("metadata");
        assert("reference"@.len() == 9);
        assert("currency_code"@.len() == 13);
        assert("note"@.len() == 4);
        assert("terms_and_conditions"@.len() == 20);
        assert("memo"@.len() == 4);
        assert("attachments"@.len() == 11);
        assert("invoice_number"@.len() == 14);
        assert("invoice_date"@.len() == 12);
        assert("payment_term"@.len() == 12);
        assert("metadata"@.len() == 8);
        assert("note"@[0] == 'n');
        assert("memo"@[0] == 'm');
        assert("invoice_date"@[0] == 'i');
        assert("payment_term"@[0] == 'p');
    }
}

impl WireCodec for InvoiceDetail {
    open spec fn encoding(self) -> Jv {
        Jv::Object(self.wire_fields())
    }

    open spec fn can_decode(v: Jv) -> bool {
        match v {
            Jv::Object(fs) => {
                &&& opt_ok::<String>(fs, "reference"@)
                &&& req_ok::<Currency>(fs, "currency_code"@)
                &&& opt_ok::<String>(fs, "note"@)
                &&& opt_ok::<String>(fs, "terms_and_conditions"@)
                &&& opt_ok::<String>(fs, "memo"@)
                &&& opt_ok::<Vec<FileReference>>(fs, "attachments"@)
                &&& opt_ok::<String>(fs, "invoice_number"@)
                &&& opt_ok::<String>(fs, "invoice_date"@)
                &&& opt_ok::<PaymentTerm>(fs, "payment_term"@)
                &&& opt_ok::<Metadata>(fs, "metadata"@)
            },
            _ => false,
        }
    }

    open spec fn decodes_to(v: Jv, t: Self) -> bool {
        match v {
            Jv::Object(fs) => {
                &&& opt_rel::<String>(fs, "reference"@, t.reference)
                &&& req_rel::<Currency>(fs, "currency_code"@, t.currency_code)
                &&& opt_rel::<String>(fs, "note"@, t.note)
                &&& opt_rel::<String>(fs, "terms_and_conditions"@, t.terms_and_conditions)
                &&& opt_rel::<String>(fs, "memo"@, t.memo)
                &&& opt_rel::<Vec<FileReference>>(fs, "attachments"@, t.attachments)
                &&& opt_rel::<String>(fs, "invoice_number"@, t.invoice_number)
                &&& opt_rel::<String>(fs, "invoice_date"@, t.invoice_date)
                &&& opt_rel::<PaymentTerm>(fs, "payment_term"@, t.payment_term)
                &&& opt_rel::<Metadata>(fs, "metadata"@, t.metadata)
            },
            _ => false,
        }
    }

    fn encode(&self) -> (r: JsonValue) {
        let mut fs: Vec<(String, JsonValue)> = Vec::new();
        push_opt(&mut fs, "reference", &self.reference);
        push_req(&mut fs, "currency_code", &self.currency_code);
        push_opt(&mut fs, "note", &self.note);
        push_opt(&mut fs, "terms_and_conditions", &self.terms_and_conditions);
        push_opt(&mut fs, "memo", &self.memo);
        push_opt(&mut fs, "attachments", &self.attachments);
        push_opt(&mut fs, "invoice_number", &self.invoice_number);
        push_opt(&mut fs, "invoice_date", &self.invoice_date);
        push_opt(&mut fs, "payment_term", &self.payment_term);
        push_opt(&mut fs, "metadata", &self.metadata);
        proof {
            crate::json::lemma_concat_left_empty(opt_entry("reference"@, (*self).reference));
            assert(jv_of_fields(fs@) == (*self).wire_fields());
        }
        JsonValue::Object(fs)
    }

    fn decode(v: &JsonValue) -> (r: Result<Self, DecodeError>) {
        match v {
            JsonValue::Object(fields) => {
                let reference = match get_opt::<String>(fields, "reference") {
                    Ok(x) => x,
                    Err(e) => return Err(e),
                };
                let currency_code = match get_req::<Currency>(fields, "currency_code") {
                    Ok(x) => x,
                    Err(e) => return Err(e),
                };
                let note = match get_opt::<String>(fields, "note") {
                    Ok(x) => x,
                    Err(e) => return Err(e),
                };
                let terms_and_conditions = match get_opt::<String>(fields, "terms_and_conditions") {
                    Ok(x) => x,
                    Err(e) => return Err(e),
                };
                let memo = match get_opt::<String>(fields, "memo") {
                    Ok(x) => x,
                    Err(e) => return Err(e),
                };
                let attachments = match get_opt::<Vec<FileReference>>(fields, "attachments") {
                    Ok(x) => x,
                    Err(e) => return Err(e),
                };
                let invoice_number = match get_opt::<String>(fields, "invoice_number") {
                    Ok(x) => x,
                    Err(e) => return Err(e),
                };
                let invoice_date = match get_opt::<String>(fields, "invoice_date") {
                    Ok(x) => x,
                    Err(e) => return Err(e),
                };
                let payment_term = match get_opt::<PaymentTerm>(fields, "payment_term") {
                    Ok(x) => x,
                    Err(e) => return Err(e),
                };
                let metadata = match get_opt::<Metadata>(fields, "metadata") {
                    Ok(x) => x,
                    Err(e) => return Err(e),
                };
                Ok(InvoiceDetail { reference, currency_code, note, terms_and_conditions, memo, attachments, invoice_number, invoice_date, payment_term, metadata })
            },
            _ => Err(DecodeError::WrongType("object".to_owned())),
        }
    }

    #[verifier::rlimit(100)]
    proof fn lemma_round_trip(t: Self, u: Self) {
        Self::lemma_lookup_reference(t);
        Self::lemma_lookup_currency_code(t);
        Self::lemma_lookup_note(t);
        Self::lemma_lookup_terms_and_conditions(t);
        Self::lemma_lookup_memo(t);
        Self::lemma_lookup_attachments(t);
        Self::lemma_lookup_invoice_number(t);
        Self::lemma_lookup_invoice_date(t);
        Self::lemma_lookup_payment_term(t);
        Self::lemma_lookup_metadata(t);
        Currency::lemma_round_trip(t.currency_code, u.currency_code);
        if let Some(x) = t.attachments {
            <Vec<FileReference> as WireCodec>::lemma_round_trip(x, x);
        }
        if let Some(x) = t.payment_term {
            PaymentTerm::lemma_round_trip(x, x);
        }
        if let Some(x) = t.metadata {
            Metadata::lemma_round_trip(x, x);
        }
        if Self::decodes_to(t.encoding(), u) {
            if let (Some(x), Some(y)) = (t.attachments, u.attachments) {
                <Vec<FileReference> as WireCodec>::lemma_round_trip(x, y);
            }
            if let (Some(x), Some(y)) = (t.payment_term, u.payment_term) {
                PaymentTerm::lemma_round_trip(x, y);
            }
            if let (Some(x), Some(y)) = (t.metadata, u.metadata) {
                Metadata::lemma_round_trip(x, y);
            }
            assert(opt_entry("reference"@, u.reference) == opt_entry("reference"@, t.reference));
            assert(field_entry("currency_code"@, u.currency_code.encoding()) == field_entry("currency_code"@, t.currency_code.encoding()));
            assert(opt_entry("note"@, u.note) == opt_entry("note"@, t.note));
            assert(opt_entry("terms_and_conditions"@, u.terms_and_conditions) == opt_entry("terms_and_conditions"@, t.terms_and_conditions));
            assert(opt_entry("memo"@, u.memo) == opt_entry("memo"@, t.memo));
            assert(opt_entry("attachments"@, u.attachments) == opt_entry("attachments"@, t.attachments));
            assert(opt_entry("invoice_number"@, u.invoice_number) == opt_entry("invoice_number"@, t.invoice_number));
            assert(opt_entry("invoice_date"@, u.invoice_date) == opt_entry("invoice_date"@, t.invoice_date));
            assert(opt_entry("payment_term"@, u.payment_term) == opt_entry("payment_term"@, t.payment_term));
            assert(opt_entry("metadata"@, u.metadata) == opt_entry("metadata"@, t.metadata));
            assert(u.wire_fields() == t.wire_fields());
        }
    }
}

/// A party's name, every part optional.
#[derive(Debug, Clone, PartialEq)]
pub struct Name {
    /// The prefix, or title, to the party's name.
    pub prefix: Option<String>,
    /// When the party is a person, the party's given, or first, name.
    pub given_name: Option<String>,
    /// When the party is a person, the party's surname or family name.
    pub surname: Option<String>,
    /// When the party is a person, the party's middle name.
    pub middle_name: Option<String>,
    /// The suffix for the party's name.
    pub suffix: Option<String>,
    /// Deprecated. The party's alternate name, for a business or a nickname.
    pub alternate_full_name: Option<String>,
    /// When the party is a person, the party's full name.
    pub full_name: Option<String>,
}

impl Name {
    /// The fields of this value's wire document, in emission order.
    pub open spec fn wire_fields(self) -> Seq<(Seq<char>, Jv)> {
        opt_entry("prefix"@, self.prefix) + opt_entry("given_name"@, self.given_name) + opt_entry(
            "surname"@,
            self.surname,
        ) + opt_entry("middle_name"@, self.middle_name) + opt_entry("suffix"@, self.suffix)
            + opt_entry("alternate_full_name"@, self.alternate_full_name) + opt_entry(
            "full_name"@,
            self.full_name,
        )
    }

    /// Omission versus null: an optional name part left unset contributes no
    /// key to the document at all — never an explicit null — and a part that
    /// is set appears as its string value under its key.
    pub proof fn lemma_unset_fields_omitted(t: Name)
        ensures
            t.prefix is None <==> lookup(t.wire_fields(), "prefix"@) is None,
            t.given_name is None <==> lookup(t.wire_fields(), "given_name"@) is None,
            t.surname is None <==> lookup(t.wire_fields(), "surname"@) is None,
            t.middle_name is None <==> lookup(t.wire_fields(), "middle_name"@) is None,
            t.suffix is None <==> lookup(t.wire_fields(), "suffix"@) is None,
            t.alternate_full_name is None <==> lookup(t.wire_fields(), "alternate_full_name"@)
                is None,
            t.full_name is None <==> lookup(t.wire_fields(), "full_name"@) is None,
            t.full_name matches Some(p) ==> lookup(t.wire_fields(), "full_name"@) == Some(
                Jv::Str(p@),
            ),
    {
        reveal_strlit("prefix");
        reveal_strlit("given_name");
        reveal_strlit("surname");
        reveal_strlit("middle_name");
        reveal_strlit("suffix");
        reveal_strlit("alternate_full_name");
        reveal_strlit("full_name");
        assert("prefix"@.len() == 6);
        assert("given_name"@.len() == 10);
        assert("surname"@.len() == 7);
        assert("middle_name"@.len() == 11);
        assert("suffix"@.len() == 6);
        assert("alternate_full_name"@.len() == 19);
        assert("full_name"@.len() == 9);
        assert("prefix"@[0] == 'p');
        assert("suffix"@[0] == 's');
    }
}

impl WireCodec for Name {
    open spec fn encoding(self) -> Jv {
        Jv::Object(self.wire_fields())
    }

    open spec fn can_decode(v: Jv) -> bool {
        match v {
            Jv::Object(fs) => {
                &&& opt_ok::<String>(fs, "prefix"@)
                &&& opt_ok::<String>(fs, "given_name"@)
                &&& opt_ok::<String>(fs, "surname"@)
                &&& opt_ok::<String>(fs, "middle_name"@)
                &&& opt_ok::<String>(fs, "suffix"@)
                &&& opt_ok::<String>(fs, "alternate_full_name"@)
                &&& opt_ok::<String>(fs, "full_name"@)
            },
            _ => false,
        }
    }

    open spec fn decodes_to(v: Jv, t: Self) -> bool {
        match v {
            Jv::Object(fs) => {
                &&& opt_rel::<String>(fs, "prefix"@, t.prefix)
                &&& opt_rel::<String>(fs, "given_name"@, t.given_name)
                &&& opt_rel::<String>(fs, "surname"@, t.surname)
                &&& opt_rel::<String>(fs, "middle_name"@, t.middle_name)
                &&& opt_rel::<String>(fs, "suffix"@, t.suffix)
                &&& opt_rel::<String>(fs, "alternate_full_name"@, t.alternate_full_name)
                &&& opt_rel::<String>(fs, "full_name"@, t.full_name)
            },
            _ => false,
        }
    }

    #[verifier::rlimit(100)]
    fn encode(&self) -> (r: JsonValue) {
        let mut fs: Vec<(String, JsonValue)> = Vec::new();
        if let Some(x) = &self.prefix {
            fs.push(("prefix".to_owned(), x.encode()));
        }
        if let Some(x) = &self.given_name {
            fs.push(("given_name".to_owned(), x.encode()));
        }
        if let Some(x) = &self.surname {
            fs.push(("surname".to_owned(), x.encode()));
        }
        proof {
            assert(jv_of_fields(fs@) =~= opt_entry("prefix"@, self.prefix) + opt_entry(
                "given_name"@,
                self.given_name,
            ) + opt_entry("surname"@, self.surname));
        }
        if let Some(x) = &self.middle_name {
            fs.push(("middle_name".to_owned(), x.encode()));
        }
        if let Some(x) = &self.suffix {
            fs.push(("suffix".to_owned(), x.encode()));
        }
        if let Some(x) = &self.alternate_full_name {
            fs.push(("alternate_full_name".to_owned(), x.encode()));
        }
        if let Some(x) = &self.full_name {
            fs.push(("full_name".to_owned(), x.encode()));
        }
        proof {
            assert(jv_of_fields(fs@) =~= (*self).wire_fields());
        }
        JsonValue::Object(fs)
    }

    fn decode(v: &JsonValue) -> (r: Result<Self, DecodeError>) {
        match v {
            JsonValue::Object(fields) => {
                let prefix = match get_opt::<String>(fields, "prefix") {
                    Ok(x) => x,
                    Err(e) => return Err(e),
                };
                let given_name = match get_opt::<String>(fields, "given_name") {
                    Ok(x) => x,
                    Err(e) => return Err(e),
                };
                let surname = match get_opt::<String>(fields, "surname") {
                    Ok(x) => x,
                    Err(e) => return Err(e),
                };
                let middle_name = match get_opt::<String>(fields, "middle_name") {
                    Ok(x) => x,
                    Err(e) => return Err(e),
                };
                let suffix = match get_opt::<String>(fields, "suffix") {
                    Ok(x) => x,
                    Err(e) => return Err(e),
                };
                let alternate_full_name = match get_opt::<String>(fields, "alternate_full_name") {
                    Ok(x) => x,
                    Err(e) => return Err(e),
                };
                let full_name = match get_opt::<String>(fields, "full_name") {
                    Ok(x) => x,
                    Err(e) => return Err(e),
                };
                Ok(
                    Name {
                        prefix,
                        given_name,
                        surname,
                        middle_name,
                        suffix,
                        alternate_full_name,
                        full_name,
                    },
                )
            },
            _ => Err(DecodeError::WrongType("object".to_owned())),
        }
    }

    #[verifier::rlimit(100)]
    proof fn lemma_round_trip(t: Self, u: Self) {
        reveal_strlit("prefix");
        reveal_strlit("given_name");
        reveal_strlit("surname");
        reveal_strlit("middle_name");
        reveal_strlit("suffix");
        reveal_strlit("alternate_full_name");
        reveal_strlit("full_name");
        assert("prefix"@.len() == 6);
        assert("given_name"@.len() == 10);
        assert("surname"@.len() == 7);
        assert("middle_name"@.len() == 11);
        assert("suffix"@.len() == 6);
        assert("alternate_full_name"@.len() == 19);
        assert("full_name"@.len() == 9);
        assert("prefix"@[0] == 'p');
        assert("suffix"@[0] == 's');
        if Self::decodes_to(t.encoding(), u) {
            assert(u.wire_fields() =~= t.wire_fields());
        }
    }
}

/// A phone number with an optional extension.
#[derive(Debug, Clone, PartialEq)]
pub struct PhoneDetail {
    /// The country calling code (CC).
    pub country_code: String,
    /// The national number.
    pub national_number: String,
    /// The extension number.
    pub extension_number: Option<String>,
    /// The phone type.
    pub phone_type: Option<PhoneType>,
}

impl PhoneDetail {
    /// The fields of this value's wire document, in emission order.
    pub open spec fn wire_fields(self) -> Seq<(Seq<char>, Jv)> {
        field_entry("country_code"@, self.country_code.encoding()) + field_entry("national_number"@, self.national_number.encoding()) + opt_entry("extension_number"@, self.extension_number) + opt_entry("phone_type"@, self.phone_type)
    }
}

impl WireCodec for PhoneDetail {
    open spec fn encoding(self) -> Jv {
        Jv::Object(self.wire_fields())
    }

    open spec fn can_decode(v: Jv) -> bool {
        match v {
            Jv::Object(fs) => {
                &&& req_ok::<String>(fs, "country_code"@)
                &&& req_ok::<String>(fs, "national_number"@)
                &&& opt_ok::<String>(fs, "extension_number"@)
                &&& opt_ok::<PhoneType>(fs, "phone_type"@)
            },
            _ => false,
        }
    }

    open spec fn decodes_to(v: Jv, t: Self) -> bool {
        match v {
            Jv::Object(fs) => {
                &&& req_rel::<String>(fs, "country_code"@, t.country_code)
                &&& req_rel::<String>(fs, "national_number"@, t.national_number)
                &&& opt_rel::<String>(fs, "extension_number"@, t.extension_number)
                &&& opt_rel::<PhoneType>(fs, "phone_type"@, t.phone_type)
            },
            _ => false,
        }
    }

    fn encode(&self) -> (r: JsonValue) {
        let mut fs: Vec<(String, JsonValue)> = Vec::new();
        fs.push(("country_code".to_owned(), self.country_code.encode()));
        fs.push(("national_number".to_owned(), self.national_number.encode()));
        if let Some(x) = &self.extension_number {
            fs.push(("extension_number".to_owned(), x.encode()));
        }
        if let Some(x) = &self.phone_type {
            fs.push(("phone_type".to_owned(), x.encode()));
        }
        proof {
            crate::json::lemma_jv_of_fields(fs@);
            assert(jv_of_fields(fs@) =~= (*self).wire_fields());
        }
        JsonValue::Object(fs)
    }

    fn decode(v: &JsonValue) -> (r: Result<Self, DecodeError>) {
        match v {
            JsonValue::Object(fields) => {
                let country_code = match get_req::<String>(fields, "country_code") {
                    Ok(x) => x,
                    Err(e) => return Err(e),
                };
                let national_number = match get_req::<String>(fields, "national_number") {
                    Ok(x) => x,
                    Err(e) => return Err(e),
                };
                let extension_number = match get_opt::<String>(fields, "extension_number") {
                    Ok(x) => x,
                    Err(e) => return Err(e),
                };
                let phone_type = match get_opt::<PhoneType>(fields, "phone_type") {
                    Ok(x) => x,
                    Err(e) => return Err(e),
                };
                Ok(PhoneDetail { country_code, national_number, extension_number, phone_type })
            },
            _ => Err(DecodeError::WrongType("object".to_owned())),
        }
    }

    proof fn lemma_round_trip(t: Self, u: Self) {
        reveal_strlit("country_code");
        reveal_strlit("national_number");
        reveal_strlit("extension_number");
        reveal_strlit("phone_type");
        assert("country_code"@.len() == 12);
        assert("national_number"@.len() == 15);
        assert("extension_number"@.len() == 16);
        assert("phone_type"@.len() == 10);
        if let Some(x) = t.phone_type {
            PhoneType::lemma_round_trip(x, x);
        }
        if Self::decodes_to(t.encoding(), u) {
            if let (Some(x), Some(y)) = (t.phone_type, u.phone_type) {
                PhoneType::lemma_round_trip(x, y);
            }
            assert(u.wire_fields() =~= t.wire_fields());
        }
    }
}

/// The invoicer information.
#[derive(Debug, Clone, PartialEq)]
pub struct InvoicerInfo {
    /// The business name of the party.
    pub business_name: Option<String>,
    /// The first and last name of the party.
    pub name: Option<Name>,
    /// The invoicer email address listed in the user's PayPal profile.
    pub email_address: Option<String>,
    /// The invoicer's phone numbers.
    pub phones: Option<Vec<PhoneDetail>>,
    /// The invoicer's website.
    pub website: Option<String>,
    /// The invoicer's tax ID.
    pub tax_id: Option<String>,
    /// Any additional information, such as business hours.
    pub additional_notes: Option<String>,
    /// The full URL to an external logo image.
    pub logo_url: Option<String>,
}

impl InvoicerInfo {
    /// The fields of this value's wire document, in emission order.
    pub open spec fn wire_fields(self) -> Seq<(Seq<char>, Jv)> {
        opt_entry("business_name"@, self.business_name) + opt_entry("name"@, self.name) + opt_entry("email_address"@, self.email_address) + opt_entry("phones"@, self.phones) + opt_entry("website"@, self.website) + opt_entry("tax_id"@, self.tax_id) + opt_entry("additional_notes"@, self.additional_notes) + opt_entry("logo_url"@, self.logo_url)
    }
}

impl WireCodec for InvoicerInfo {
    open spec fn encoding(self) -> Jv {
        Jv::Object(self.wire_fields())
    }

    open spec fn can_decode(v: Jv) -> bool {
        match v {
            Jv::Object(fs) => {
                &&& opt_ok::<String>(fs, "business_name"@)
                &&& opt_ok::<Name>(fs, "name"@)
                &&& opt_ok::<String>(fs, "email_address"@)
                &&& opt_ok::<Vec<PhoneDetail>>(fs, "phones"@)
                &&& opt_ok::<String>(fs, "website"@)
                &&& opt_ok::<String>(fs, "tax_id"@)
                &&& opt_ok::<String>(fs, "additional_notes"@)
                &&& opt_ok::<String>(fs, "logo_url"@)
            },
            _ => false,
        }
    }

    open spec fn decodes_to(v: Jv, t: Self) -> bool {
        match v {
            Jv::Object(fs) => {
                &&& opt_rel::<String>(fs, "business_name"@, t.business_name)
                &&& opt_rel::<Name>(fs, "name"@, t.name)
                &&& opt_rel::<String>(fs, "email_address"@, t.email_address)
                &&& opt_rel::<Vec<PhoneDetail>>(fs, "phones"@, t.phones)
                &&& opt_rel::<String>(fs, "website"@, t.website)
                &&& opt_rel::<String>(fs, "tax_id"@, t.tax_id)
                &&& opt_rel::<String>(fs, "additional_notes"@, t.additional_notes)
                &&& opt_rel::<String>(fs, "logo_url"@, t.logo_url)
            },
            _ => false,
        }
    }

    fn encode(&self) -> (r: JsonValue) {
        let mut fs: Vec<(String, JsonValue)> = Vec::new();
        push_opt(&mut fs, "business_name", &self.business_name);
        push_opt(&mut fs, "name", &self.name);
        push_opt(&mut fs, "email_address", &self.email_address);
        push_opt(&mut fs, "phones", &self.phones);
        push_opt(&mut fs, "website", &self.website);
        push_opt(&mut fs, "tax_id", &self.tax_id);
        push_opt(&mut fs, "additional_notes", &self.additional_notes);
        push_opt(&mut fs, "logo_url", &self.logo_url);
        proof {
            crate::json::lemma_concat_left_empty(opt_entry("business_name"@, (*self).business_name));
            assert(jv_of_fields(fs@) == (*self).wire_fields());
        }
        JsonValue::Object(fs)
    }

    fn decode(v: &JsonValue) -> (r: Result<Self, DecodeError>) {
        match v {
            JsonValue::Object(fields) => {
                let business_name = match get_opt::<String>(fields, "business_name") {
                    Ok(x) => x,
                    Err(e) => return Err(e),
                };
                let name = match get_opt::<Name>(fields, "name") {
                    Ok(x) => x,
                    Err(e) => return Err(e),
                };
                let email_address = match get_opt::<String>(fields, "email_address") {
                    Ok(x) => x,
                    Err(e) => return Err(e),
                };
                let phones = match get_opt::<Vec<PhoneDetail>>(fields, "phones") {
                    Ok(x) => x,
                    Err(e) => return Err(e),
                };
                let website = match get_opt::<String>(fields, "website") {
                    Ok(x) => x,
                    Err(e) => return Err(e),
                };
                let tax_id = match get_opt::<String>(fields, "tax_id") {
                    Ok(x) => x,
                    Err(e) => return Err(e),
                };
                let additional_notes = match get_opt::<String>(fields, "additional_notes") {
                    Ok(x) => x,
                    Err(e) => return Err(e),
                };
                let logo_url = match get_opt::<String>(fields, "logo_url") {
                    Ok(x) => x,
                    Err(e) => return Err(e),
                };
                Ok(InvoicerInfo { business_name, name, email_address, phones, website, tax_id, additional_notes, logo_url })
            },
            _ => Err(DecodeError::WrongType("object".to_owned())),
        }
    }

    #[verifier::rlimit(100)]
    proof fn lemma_round_trip(t: Self, u: Self) {
        reveal_strlit("business_name");
        reveal_strlit("name");
        reveal_strlit("email_address");
        reveal_strlit("phones");
        reveal_strlit("website");
        reveal_strlit("tax_id");
        reveal_strlit("additional_notes");
        reveal_strlit("logo_url");
        assert("business_name"@.len() == 13);
        assert("name"@.len() == 4);
        assert("email_address"@.len() == 13);
        assert("phones"@.len() == 6);
        assert("website"@.len() == 7);
        assert("tax_id"@.len() == 6);
        assert("additional_notes"@.len() == 16);
        assert("logo_url"@.len() == 8);
        assert("business_name"@[0] == 'b');
        assert("email_address"@[0] == 'e');
        assert("phones"@[0] == 'p');
        assert("tax_id"@[0] == 't');
        if let Some(x) = t.name {
            Name::lemma_round_trip(x, x);
        }
        if let Some(x) = t.phones {
            <Vec<PhoneDetail> as WireCodec>::lemma_round_trip(x, x);
        }
        if Self::decodes_to(t.encoding(), u) {
            if let (Some(x), Some(y)) = (t.name, u.name) {
                Name::lemma_round_trip(x, y);
            }
            if let (Some(x), Some(y)) = (t.phones, u.phones) {
                <Vec<PhoneDetail> as WireCodec>::lemma_round_trip(x, y);
            }
            assert(opt_entry("business_name"@, u.business_name) == opt_entry("business_name"@, t.business_name));
            assert(opt_entry("name"@, u.name) == opt_entry("name"@, t.name));
            assert(opt_entry("email_address"@, u.email_address) == opt_entry("email_address"@, t.email_address));
            assert(opt_entry("phones"@, u.phones) == opt_entry("phones"@, t.phones));
            assert(opt_entry("website"@, u.website) == opt_entry("website"@, t.website));
            assert(opt_entry("tax_id"@, u.tax_id) == opt_entry("tax_id"@, t.tax_id));
            assert(opt_entry("additional_notes"@, u.additional_notes) == opt_entry("additional_notes"@, t.additional_notes));
            assert(opt_entry("logo_url"@, u.logo_url) == opt_entry("logo_url"@, t.logo_url));
            assert(u.wire_fields() == t.wire_fields());
        }
    }
}

/// The billing information of an invoice recipient.
#[derive(Debug, Clone, PartialEq)]
pub struct BillingInfo {
    /// The business name of the party.
    pub business_name: String,
    /// The first and last name of the recipient.
    pub name: Option<Name>,
    /// The address of the recipient.
    pub address: Option<Address>,
    /// The invoice recipient email address.
    pub email_address: Option<String>,
    /// The invoice recipient's phone numbers.
    pub phones: Option<Vec<PhoneDetail>>,
    /// Any additional information about the recipient.
    pub additional_info: Option<String>,
    /// The language of the recipient's email message.
    pub language: Option<String>,
}

impl BillingInfo {
    /// The fields of this value's wire document, in emission order.
    pub open spec fn wire_fields(self) -> Seq<(Seq<char>, Jv)> {
        field_entry("business_name"@, self.business_name.encoding()) + opt_entry("name"@, self.name) + opt_entry("address"@, self.address) + opt_entry("email_address"@, self.email_address) + opt_entry("phones"@, self.phones) + opt_entry("additional_info"@, self.additional_info) + opt_entry("language"@, self.language)
    }
}

impl WireCodec for BillingInfo {
    open spec fn encoding(self) -> Jv {
        Jv::Object(self.wire_fields())
    }

    open spec fn can_decode(v: Jv) -> bool {
        match v {
            Jv::Object(fs) => {
                &&& req_ok::<String>(fs, "business_name"@)
                &&& opt_ok::<Name>(fs, "name"@)
                &&& opt_ok::<Address>(fs, "address"@)
                &&& opt_ok::<String>(fs, "email_address"@)
                &&& opt_ok::<Vec<PhoneDetail>>(fs, "phones"@)
                &&& opt_ok::<String>(fs, "additional_info"@)
                &&& opt_ok::<String>(fs, "language"@)
            },
            _ => false,
        }
    }

    open spec fn decodes_to(v: Jv, t: Self) -> bool {
        match v {
            Jv::Object(fs) => {
                &&& req_rel::<String>(fs, "business_name"@, t.business_name)
                &&& opt_rel::<Name>(fs, "name"@, t.name)
                &&& opt_rel::<Address>(fs, "address"@, t.address)
                &&& opt_rel::<String>(fs, "email_address"@, t.email_address)
                &&& opt_rel::<Vec<PhoneDetail>>(fs, "phones"@, t.phones)
                &&& opt_rel::<String>(fs, "additional_info"@, t.additional_info)
                &&& opt_rel::<String>(fs, "language"@, t.language)
            },
            _ => false,
        }
    }

    fn encode(&self) -> (r: JsonValue) {
        let mut fs: Vec<(String, JsonValue)> = Vec::new();
        push_req(&mut fs, "business_name", &self.business_name);
        push_opt(&mut fs, "name", &self.name);
        push_opt(&mut fs, "address", &self.address);
        push_opt(&mut fs, "email_address", &self.email_address);
        push_opt(&mut fs, "phones", &self.phones);
        push_opt(&mut fs, "additional_info", &self.additional_info);
        push_opt(&mut fs, "language", &self.language);
        proof {
            crate::json::lemma_concat_left_empty(field_entry("business_name"@, (*self).business_name.encoding()));
            assert(jv_of_fields(fs@) == (*self).wire_fields());
        }
        JsonValue::Object(fs)
    }

    fn decode(v: &JsonValue) -> (r: Result<Self, DecodeError>) {
        match v {
            JsonValue::Object(fields) => {
                let business_name = match get_req::<String>(fields, "business_name") {
                    Ok(x) => x,
                    Err(e) => return Err(e),
                };
                let name = match get_opt::<Name>(fields, "name") {
                    Ok(x) => x,
                    Err(e) => return Err(e),
                };
                let address = match get_opt::<Address>(fields, "address") {
                    Ok(x) => x,
                    Err(e) => return Err(e),
                };
                let email_address = match get_opt::<String>(fields, "email_address") {
                    Ok(x) => x,
                    Err(e) => return Err(e),
                };
                let phones = match get_opt::<Vec<PhoneDetail>>(fields, "phones") {
                    Ok(x) => x,
                    Err(e) => return Err(e),
                };
                let additional_info = match get_opt::<String>(fields, "additional_info") {
                    Ok(x) => x,
                    Err(e) => return Err(e),
                };
                let language = match get_opt::<String>(fields, "language") {
                    Ok(x) => x,
                    Err(e) => return Err(e),
                };
                Ok(BillingInfo { business_name, name, address, email_address, phones, additional_info, language })
            },
            _ => Err(DecodeError::WrongType("object".to_owned())),
        }
    }

    #[verifier::rlimit(100)]
    proof fn lemma_round_trip(t: Self, u: Self) {
        reveal_strlit("business_name");
        reveal_strlit("name");
        reveal_strlit("address");
        reveal_strlit("email_address");
        reveal_strlit("phones");
        reveal_strlit("additional_info");
        reveal_strlit("language");
        assert("business_name"@.len() == 13);
        assert("name"@.len() == 4);
        assert("address"@.len() == 7);
        assert("email_address"@.len() == 13);
        assert("phones"@.len() == 6);
        assert("additional_info"@.len() == 15);
        assert("language"@.len() == 8);
        assert("business_name"@[0] == 'b');
        assert("email_address"@[0] == 'e');
        if let Some(x) = t.name {
            Name::lemma_round_trip(x, x);
        }
        if let Some(x) = t.address {
            Address::lemma_round_trip(x, x);
        }
        if let Some(x) = t.phones {
            <Vec<PhoneDetail> as WireCodec>::lemma_round_trip(x, x);
        }
        if Self::decodes_to(t.encoding(), u) {
            if let (Some(x), Some(y)) = (t.name, u.name) {
                Name::lemma_round_trip(x, y);
            }
            if let (Some(x), Some(y)) = (t.address, u.address) {
                Address::lemma_round_trip(x, y);
            }
            if let (Some(x), Some(y)) = (t.phones, u.phones) {
                <Vec<PhoneDetail> as WireCodec>::lemma_round_trip(x, y);
            }
            assert(field_entry("business_name"@, u.business_name.encoding()) == field_entry("business_name"@, t.business_name.encoding()));
            assert(opt_entry("name"@, u.name) == opt_entry("name"@, t.name));
            assert(opt_entry("address"@, u.address) == opt_entry("address"@, t.address));
            assert(opt_entry("email_address"@, u.email_address) == opt_entry("email_address"@, t.email_address));
            assert(opt_entry("phones"@, u.phones) == opt_entry("phones"@, t.phones));
            assert(opt_entry("additional_info"@, u.additional_info) == opt_entry("additional_info"@, t.additional_info));
            assert(opt_entry("language"@, u.language) == opt_entry("language"@, t.language));
            assert(u.wire_fields() == t.wire_fields());
        }
    }
}

/// Contact information: a business name with a person's name and address.
#[derive(Debug, Clone, PartialEq)]
pub struct ContactInformation {
    /// The business name of the party.
    pub business_name: String,
    /// The first and last name of the recipient.
    pub name: Option<Name>,
    /// The address of the recipient.
    pub address: Option<Address>,
}

impl ContactInformation {
    /// The fields of this value's wire document, in emission order.
    pub open spec fn wire_fields(self) -> Seq<(Seq<char>, Jv)> {
        field_entry("business_name"@, self.business_name.encoding()) + opt_entry("name"@, self.name) + opt_entry("address"@, self.address)
    }
}

impl WireCodec for ContactInformation {
    open spec fn encoding(self) -> Jv {
        Jv::Object(self.wire_fields())
    }

    open spec fn can_decode(v: Jv) -> bool {
        match v {
            Jv::Object(fs) => {
                &&& req_ok::<String>(fs, "business_name"@)
                &&& opt_ok::<Name>(fs, "name"@)
                &&& opt_ok::<Address>(fs, "address"@)
            },
            _ => false,
        }
    }

    open spec fn decodes_to(v: Jv, t: Self) -> bool {
        match v {
            Jv::Object(fs) => {
                &&& req_rel::<String>(fs, "business_name"@, t.business_name)
                &&& opt_rel::<Name>(fs, "name"@, t.name)
                &&& opt_rel::<Address>(fs, "address"@, t.address)
            },
            _ => false,
        }
    }

    fn encode(&self) -> (r: JsonValue) {
        let mut fs: Vec<(String, JsonValue)> = Vec::new();
        fs.push(("business_name".to_owned(), self.business_name.encode()));
        if let Some(x) = &self.name {
            fs.push(("name".to_owned(), x.encode()));
        }
        if let Some(x) = &self.address {
            fs.push(("address".to_owned(), x.encode()));
        }
        proof {
            crate::json::lemma_jv_of_fields(fs@);
            assert(jv_of_fields(fs@) =~= (*self).wire_fields());
        }
        JsonValue::Object(fs)
    }

    fn decode(v: &JsonValue) -> (r: Result<Self, DecodeError>) {
        match v {
            JsonValue::Object(fields) => {
                let business_name = match get_req::<String>(fields, "business_name") {
                    Ok(x) => x,
                    Err(e) => return Err(e),
                };
                let name = match get_opt::<Name>(fields, "name") {
                    Ok(x) => x,
                    Err(e) => return Err(e),
                };
                let address = match get_opt::<Address>(fields, "address") {
                    Ok(x) => x,
                    Err(e) => return Err(e),
                };
                Ok(ContactInformation { business_name, name, address })
            },
            _ => Err(DecodeError::WrongType("object".to_owned())),
        }
    }

    proof fn lemma_round_trip(t: Self, u: Self) {
        reveal_strlit("business_name");
        reveal_strlit("name");
        reveal_strlit("address");
        assert("business_name"@.len() == 13);
        assert("name"@.len() == 4);
        assert("address"@.len() == 7);
        if let Some(x) = t.name {
            Name::lemma_round_trip(x, x);
        }
        if let Some(x) = t.address {
            Address::lemma_round_trip(x, x);
        }
        if Self::decodes_to(t.encoding(), u) {
            if let (Some(x), Some(y)) = (t.name, u.name) {
                Name::lemma_round_trip(x, y);
            }
            if let (Some(x), Some(y)) = (t.address, u.address) {
                Address::lemma_round_trip(x, y);
            }
            assert(u.wire_fields() =~= t.wire_fields());
        }
    }
}

/// The billing and shipping information of an invoice recipient.
#[derive(Debug, Clone, PartialEq)]
pub struct RecipientInfo {
    /// The recipient's billing information.
    pub billing_info: Option<BillingInfo>,
    /// The recipient's shipping information.
    pub shipping_info: Option<ContactInformation>,
}

impl RecipientInfo {
    /// The fields of this value's wire document, in emission order.
    pub open spec fn wire_fields(self) -> Seq<(Seq<char>, Jv)> {
        opt_entry("billing_info"@, self.billing_info) + opt_entry("shipping_info"@, self.shipping_info)
    }
}

impl WireCodec for RecipientInfo {
    open spec fn encoding(self) -> Jv {
        Jv::Object(self.wire_fields())
    }

    open spec fn can_decode(v: Jv) -> bool {
        match v {
            Jv::Object(fs) => {
                &&& opt_ok::<BillingInfo>(fs, "billing_info"@)
                &&& opt_ok::<ContactInformation>(fs, "shipping_info"@)
            },
            _ => false,
        }
    }

    open spec fn decodes_to(v: Jv, t: Self) -> bool {
        match v {
            Jv::Object(fs) => {
                &&& opt_rel::<BillingInfo>(fs, "billing_info"@, t.billing_info)
                &&& opt_rel::<ContactInformation>(fs, "shipping_info"@, t.shipping_info)
            },
            _ => false,
        }
    }

    fn encode(&self) -> (r: JsonValue) {
        let mut fs: Vec<(String, JsonValue)> = Vec::new();
        if let Some(x) = &self.billing_info {
            fs.push(("billing_info".to_owned(), x.encode()));
        }
        if let Some(x) = &self.shipping_info {
            fs.push(("shipping_info".to_owned(), x.encode()));
        }
        proof {
            crate::json::lemma_jv_of_fields(fs@);
            assert(jv_of_fields(fs@) =~= (*self).wire_fields());
        }
        JsonValue::Object(fs)
    }

    fn decode(v: &JsonValue) -> (r: Result<Self, DecodeError>) {
        match v {
            JsonValue::Object(fields) => {
                let billing_info = match get_opt::<BillingInfo>(fields, "billing_info") {
                    Ok(x) => x,
                    Err(e) => return Err(e),
                };
                let shipping_info = match get_opt::<ContactInformation>(fields, "shipping_info") {
                    Ok(x) => x,
                    Err(e) => return Err(e),
                };
                Ok(RecipientInfo { billing_info, shipping_info })
            },
            _ => Err(DecodeError::WrongType("object".to_owned())),
        }
    }

    proof fn lemma_round_trip(t: Self, u: Self) {
        reveal_strlit("billing_info");
        reveal_strlit("shipping_info");
        assert("billing_info"@.len() == 12);
        assert("shipping_info"@.len() == 13);
        if let Some(x) = t.billing_info {
            BillingInfo::lemma_round_trip(x, x);
        }
        if let Some(x) = t.shipping_info {
            ContactInformation::lemma_round_trip(x, x);
        }
        if Self::decodes_to(t.encoding(), u) {
            if let (Some(x), Some(y)) = (t.billing_info, u.billing_info) {
                BillingInfo::lemma_round_trip(x, y);
            }
            if let (Some(x), Some(y)) = (t.shipping_info, u.shipping_info) {
                ContactInformation::lemma_round_trip(x, y);
            }
            assert(u.wire_fields() =~= t.wire_fields());
        }
    }
}

/// A tax applied on invoice items.
#[derive(Debug, Clone, PartialEq)]
pub struct Tax {
    /// The name of the tax.
    pub name: String,
    /// The tax rate, from 0 to 100, as decimal text.
    pub percent: String,
    /// The calculated tax amount, added to the item total.
    pub amount: Option<Money>,
}

impl Tax {
    /// The fields of this value's wire document, in emission order.
    pub open spec fn wire_fields(self) -> Seq<(Seq<char>, Jv)> {
        field_entry("name"@, self.name.encoding()) + field_entry("percent"@, self.percent.encoding()) + opt_entry("amount"@, self.amount)
    }
}

impl WireCodec for Tax {
    open spec fn encoding(self) -> Jv {
        Jv::Object(self.wire_fields())
    }

    open spec fn can_decode(v: Jv) -> bool {
        match v {
            Jv::Object(fs) => {
                &&& req_ok::<String>(fs, "name"@)
                &&& req_ok::<String>(fs, "percent"@)
                &&& opt_ok::<Money>(fs, "amount"@)
            },
            _ => false,
        }
    }

    open spec fn decodes_to(v: Jv, t: Self) -> bool {
        match v {
            Jv::Object(fs) => {
                &&& req_rel::<String>(fs, "name"@, t.name)
                &&& req_rel::<String>(fs, "percent"@, t.percent)
                &&& opt_rel::<Money>(fs, "amount"@, t.amount)
            },
            _ => false,
        }
    }

    fn encode(&self) -> (r: JsonValue) {
        let mut fs: Vec<(String, JsonValue)> = Vec::new();
        fs.push(("name".to_owned(), self.name.encode()));
        fs.push(("percent".to_owned(), self.percent.encode()));
        if let Some(x) = &self.amount {
            fs.push(("amount".to_owned(), x.encode()));
        }
        proof {
            crate::json::lemma_jv_of_fields(fs@);
            assert(jv_of_fields(fs@) =~= (*self).wire_fields());
        }
        JsonValue::Object(fs)
    }

    fn decode(v: &JsonValue) -> (r: Result<Self, DecodeError>) {
        match v {
            JsonValue::Object(fields) => {
                let name = match get_req::<String>(fields, "name") {
                    Ok(x) => x,
                    Err(e) => return Err(e),
                };
                let percent = match get_req::<String>(fields, "percent") {
                    Ok(x) => x,
                    Err(e) => return Err(e),
                };
                let amount = match get_opt::<Money>(fields, "amount") {
                    Ok(x) => x,
                    Err(e) => return Err(e),
                };
                Ok(Tax { name, percent, amount })
            },
            _ => Err(DecodeError::WrongType("object".to_owned())),
        }
    }

    proof fn lemma_round_trip(t: Self, u: Self) {
        reveal_strlit("name");
        reveal_strlit("percent");
        reveal_strlit("amount");
        assert("name"@.len() == 4);
        assert("percent"@.len() == 7);
        assert("amount"@.len() == 6);
        if let Some(x) = t.amount {
            Money::lemma_round_trip(x, x);
        }
        if Self::decodes_to(t.encoding(), u) {
            if let (Some(x), Some(y)) = (t.amount, u.amount) {
                Money::lemma_round_trip(x, y);
            }
            assert(u.wire_fields() =~= t.wire_fields());
        }
    }
}

/// A discount, as a percentage, an amount, or both.
#[derive(Debug, PartialEq)]
pub struct Discount {
    /// The discount as a percentage value, from 0 to 100, as decimal text.
    pub percent: Option<String>,
    /// The invoice-level discount amount.
    pub amount: Option<Box<Amount>>,
}

/// The unit of measure for an invoiced item.
#[derive(Debug, Clone, Copy, PartialEq, Eq)]
pub enum UnitOfMeasure {
    /// Quantity, typically for physical goods.
    Quantity,
    /// Hours, typically for services.
    Hours,
    /// Amount, when only an amount is required.
    Amount,
}

impl UnitOfMeasure {
    /// The wire token of this value.
    pub open spec fn spec_token(self) -> Seq<char> {
        match self {
            UnitOfMeasure::Quantity => "QUANTITY"@,
            UnitOfMeasure::Hours => "HOURS"@,
            UnitOfMeasure::Amount => "AMOUNT"@,
        }
    }

    /// Whether `s` is one of the documented tokens.
    pub open spec fn spec_is_token(s: Seq<char>) -> bool {
        s == "QUANTITY"@ || s == "HOURS"@ || s == "AMOUNT"@
    }
}

impl WireCodec for UnitOfMeasure {
    open spec fn encoding(self) -> Jv {
        Jv::Str(self.spec_token())
    }

    open spec fn can_decode(v: Jv) -> bool {
        match v {
            Jv::Str(s) => UnitOfMeasure::spec_is_token(s),
            _ => false,
        }
    }

    open spec fn decodes_to(v: Jv, t: Self) -> bool {
        v == Jv::Str(t.spec_token())
    }

    fn encode(&self) -> (r: JsonValue) {
        let tok = match self {
            UnitOfMeasure::Quantity => "QUANTITY",
            UnitOfMeasure::Hours => "HOURS",
            UnitOfMeasure::Amount => "AMOUNT",
        };
        JsonValue::Str(tok.to_owned())
    }

    fn decode(v: &JsonValue) -> (r: Result<Self, DecodeError>)
        ensures
            match r {
                Err(DecodeError::UnknownToken(s)) => v@ == Jv::Str(s@)
                    && !UnitOfMeasure::spec_is_token(s@),
                Err(DecodeError::WrongType(_)) => !(v@ is Str),
                Err(DecodeError::MissingField(_)) => false,
                Ok(_) => true,
            },
    {
        match v {
            JsonValue::Str(s) => {
                let c = s.as_str();
                if str_eq(c, "QUANTITY") {
                    Ok(UnitOfMeasure::Quantity)
                } else if str_eq(c, "HOURS") {
                    Ok(UnitOfMeasure::Hours)
                } else if str_eq(c, "AMOUNT") {
                    Ok(UnitOfMeasure::Amount)
                } else {
                    Err(DecodeError::UnknownToken(s.clone()))
                }
            },
            _ => Err(DecodeError::WrongType("string".to_owned())),
        }
    }

    proof fn lemma_round_trip(t: Self, u: Self) {
    }
}

/// An invoice line item.
#[derive(Debug, PartialEq)]
pub struct Item {
    /// The ID of the invoice line item; read only.
    pub id: Option<String>,
    /// The item name for the invoice line item.
    pub name: String,
    /// The item description for the invoice line item.
    pub description: Option<String>,
    /// The quantity of the item, as decimal text.
    pub quantity: String,
    /// The unit price of the item, excluding tax and discount.
    pub unit_amount: Money,
    /// The tax associated with the item.
    pub tax: Option<Tax>,
    /// When the item or service was provided, as an ISO-8601 timestamp.
    pub item_date: Option<String>,
    /// A discount at item or invoice level.
    pub discount: Option<Discount>,
    /// The unit of measure for the invoiced item.
    pub unit_of_measure: Option<UnitOfMeasure>,
}

impl Item {
    /// The fields of this value's wire document, in emission order.
    pub open spec fn wire_fields(self) -> Seq<(Seq<char>, Jv)> {
        opt_entry("id"@, self.id) + field_entry("name"@, self.name.encoding()) + opt_entry("description"@, self.description) + field_entry("quantity"@, self.quantity.encoding()) + field_entry("unit_amount"@, self.unit_amount.encoding()) + opt_entry("tax"@, self.tax) + opt_entry("item_date"@, self.item_date) + opt_entry("discount"@, self.discount) + opt_entry("unit_of_measure"@, self.unit_of_measure)
    }

    /// Where the `id` field stands in the wire document.
    proof fn lemma_lookup_id(t: Self)
        ensures
            lookup(t.wire_fields(), "id"@) == (match t.id {
                Some(x) => Some(x.encoding()),
                None => None::<Jv>,
            }),
    {
        reveal_strlit("id");
        reveal_strlit("name");
        reveal_strlit("description");
        reveal_strlit("quantity");
        reveal_strlit("unit_amount");
        reveal_strlit("tax");
        reveal_strlit("item_date");
        reveal_strlit("discount");
        reveal_strlit("unit_of_measure");
        assert("id"@.len() == 2);
        assert("name"@.len() == 4);
        assert("description"@.len() == 11);
        assert("quantity"@.len() == 8);
        assert("unit_amount"@.len() == 11);
        assert("tax"@.len() == 3);
        assert("item_date"@.len() == 9);
        assert("discount"@.len() == 8);
        assert("unit_of_measure"@.len() == 15);
        assert("description"@[0] == 'd');
        assert("unit_amount"@[0] == 'u');
        assert("quantity"@[0] == 'q');
        assert("discount"@[0] == 'd');
    }

    /// Where the `name` field stands in the wire document.
    proof fn lemma_lookup_name(t: Self)
        ensures
            lookup(t.wire_fields(), "name"@) == Some(t.name.encoding()),
    {
        reveal_strlit("id");
        reveal_strlit("name");
        reveal_strlit("description");
        reveal_strlit("quantity");
        reveal_strlit("unit_amount");
        reveal_strlit("tax");
        reveal_strlit("item_date");
        reveal_strlit("discount");
        reveal_strlit("unit_of_measure");
        assert("id"@.len() == 2);
        assert("name"@.len() == 4);
        assert("description"@.len() == 11);
        assert("quantity"@.len() == 8);
        assert("unit_amount"@.len() == 11);
        assert("tax"@.len() == 3);
        assert("item_date"@.len() == 9);
        assert("discount"@.len() == 8);
        assert("unit_of_measure"@.len() == 15);
        assert("description"@[0] == 'd');
        assert("unit_amount"@[0] == 'u');
        assert("quantity"@[0] == 'q');
        assert("discount"@[0] == 'd');
    }

    /// Where the `description` field stands in the wire document.
    proof fn lemma_lookup_description(t: Self)
        ensures
            lookup(t.wire_fields(), "description"@) == (match t.description {
                Some(x) => Some(x.encoding()),
                None => None::<Jv>,
            }),
    {
        reveal_strlit("id");
        reveal_strlit("name");
        reveal_strlit("description");
        reveal_strlit("quantity");
        reveal_strlit("unit_amount");
        reveal_strlit("tax");
        reveal_strlit("item_date");
        reveal_strlit("discount");
        reveal_strlit("unit_of_measure");
        assert("id"@.len() == 2);
        assert("name"@.len() == 4);
        assert("description"@.len() == 11);
        assert("quantity"@.len() == 8);
        assert("unit_amount"@.len() == 11);
        assert("tax"@.len() == 3);
        assert("item_date"@.len() == 9);
        assert("discount"@.len() == 8);
        assert("unit_of_measure"@.len() == 15);
        assert("description"@[0] == 'd');
        assert("unit_amount"@[0] == 'u');
        assert("quantity"@[0] == 'q');
        assert("discount"@[0] == 'd');
    }

    /// Where the `quantity` field stands in the wire document.
    proof fn lemma_lookup_quantity(t: Self)
        ensures
            lookup(t.wire_fields(), "quantity"@) == Some(t.quantity.encoding()),
    {
        reveal_strlit("id");
        reveal_strlit("name");
        reveal_strlit("description");
        reveal_strlit("quantity");
        reveal_strlit("unit_amount");
        reveal_strlit("tax");
        reveal_strlit("item_date");
        reveal_strlit("discount");
        reveal_strlit("unit_of_measure");
        assert("id"@.len() == 2);
        assert("name"@.len() == 4);
        assert("description"@.len() == 11);
        assert("quantity"@.len() == 8);
        assert("unit_amount"@.len() == 11);
        assert("tax"@.len() == 3);
        assert("item_date"@.len() == 9);
        assert("discount"@.len() == 8);
        assert("unit_of_measure"@.len() == 15);
        assert("description"@[0] == 'd');
        assert("unit_amount"@[0] == 'u');
        assert("quantity"@[0] == 'q');
        assert("discount"@[0] == 'd');
    }

    /// Where the `unit_amount` field stands in the wire document.
    proof fn lemma_lookup_unit_amount(t: Self)
        ensures
            lookup(t.wire_fields(), "unit_amount"@) == Some(t.unit_amount.encoding()),
    {
        reveal_strlit("id");
        reveal_strlit("name");
        reveal_strlit("description");
        reveal_strlit("quantity");
        reveal_strlit("unit_amount");
        reveal_strlit("tax");
        reveal_strlit("item_date");
        reveal_strlit("discount");
        reveal_strlit("unit_of_measure");
        assert("id"@.len() == 2);
        assert("name"@.len() == 4);
        assert("description"@.len() == 11);
        assert("quantity"@.len() == 8);
        assert("unit_amount"@.len() == 11);
        assert("tax"@.len() == 3);
        assert("item_date"@.len() == 9);
        assert("discount"@.len() == 8);
        assert("unit_of_measure"@.len() == 15);
        assert("description"@[0] == 'd');
        assert("unit_amount"@[0] == 'u');
        assert("quantity"@[0] == 'q');
        assert("discount"@[0] == 'd');
    }

    /// Where the `tax` field stands in the wire document.
    proof fn lemma_lookup_tax(t: Self)
        ensures
            lookup(t.wire_fields(), "tax"@) == (match t.tax {
                Some(x) => Some(x.encoding()),
                None => None::<Jv>,
            }),
    {
        reveal_strlit("id");
        reveal_strlit("name");
        reveal_strlit("description");
        reveal_strlit("quantity");
        reveal_strlit("unit_amount");
        reveal_strlit("tax");
        reveal_strlit("item_date");
        reveal_strlit("discount");
        reveal_strlit("unit_of_measure");
        assert("id"@.len() == 2);
        assert("name"@.len() == 4);
        assert("description"@.len() == 11);
        assert("quantity"@.len() == 8);
        assert("unit_amount"@.len() == 11);
        assert("tax"@.len() == 3);
        assert("item_date"@.len() == 9);
        assert("discount"@.len() == 8);
        assert("unit_of_measure"@.len() == 15);
        assert("description"@[0] == 'd');
        assert("unit_amount"@[0] == 'u');
        assert("quantity"@[0] == 'q');
        assert("discount"@[0] == 'd');
    }

    /// Where the `item_date` field stands in the wire document.
    proof fn lemma_lookup_item_date(t: Self)
        ensures
            lookup(t.wire_fields(), "item_date"@) == (match t.item_date {
                Some(x) => Some(x.encoding()),
                None => None::<Jv>,
            }),
    {
        reveal_strlit("id");
        reveal_strlit("name");
        reveal_strlit("description");
        reveal_strlit("quantity");
        reveal_strlit("unit_amount");
        reveal_strlit("tax");
        reveal_strlit("item_date");
        reveal_strlit("discount");
        reveal_strlit("unit_of_measure");
        assert("id"@.len() == 2);
        assert("name"@.len() == 4);
        assert("description"@.len() == 11);
        assert("quantity"@.len() == 8);
        assert("unit_amount"@.len() == 11);
        assert("tax"@.len() == 3);
        assert("item_date"@.len() == 9);
        assert("discount"@.len() == 8);
        assert("unit_of_measure"@.len() == 15);
        assert("description"@[0] == 'd');
        assert("unit_amount"@[0] == 'u');
        assert("quantity"@[0] == 'q');
        assert("discount"@[0] == 'd');
    }

    /// Where the `discount` field stands in the wire document.
    proof fn lemma_lookup_discount(t: Self)
        ensures
            lookup(t.wire_fields(), "discount"@) == (match t.discount {
                Some(x) => Some(x.encoding()),
                None => None::<Jv>,
            }),
    {
        reveal_strlit("id");
        reveal_strlit("name");
        reveal_strlit("description");
        reveal_strlit("quantity");
        reveal_strlit("unit_amount");
        reveal_strlit("tax");
        reveal_strlit("item_date");
        reveal_strlit("discount");
        reveal_strlit("unit_of_measure");
        assert("id"@.len() == 2);
        assert("name"@.len() == 4);
        assert("description"@.len() == 11);
        assert("quantity"@.len() == 8);
        assert("unit_amount"@.len() == 11);
        assert("tax"@.len() == 3);
        assert("item_date"@.len() == 9);
        assert("discount"@.len() == 8);
        assert("unit_of_measure"@.len() == 15);
        assert("description"@[0] == 'd');
        assert("unit_amount"@[0] == 'u');
        assert("quantity"@[0] == 'q');
        assert("discount"@[0] == 'd');
    }

    /// Where the `unit_of_measure` field stands in the wire document.
    proof fn lemma_lookup_unit_of_measure(t: Self)
        ensures
            lookup(t.wire_fields(), "unit_of_measure"@) == (match t.unit_of_measure {
                Some(x) => Some(x.encoding()),
                None => None::<Jv>,
            }),
    {
        reveal_strlit("id");
        reveal_strlit("name");
        reveal_strlit("description");
        reveal_strlit("quantity");
        reveal_strlit("unit_amount");
        reveal_strlit("tax");
        reveal_strlit("item_date");
        reveal_strlit("discount");
        reveal_strlit("unit_of_measure");
        assert("id"@.len() == 2);
        assert("name"@.len() == 4);
        assert("description"@.len() == 11);
        assert("quantity"@.len() == 8);
        assert("unit_amount"@.len() == 11);
        assert("tax"@.len() == 3);
        assert("item_date"@.len() == 9);
        assert("discount"@.len() == 8);
        assert("unit_of_measure"@.len() == 15);
        assert("description"@[0] == 'd');
        assert("unit_amount"@[0] == 'u');
        assert("quantity"@[0] == 'q');
        assert("discount"@[0] == 'd');
    }

    /// Two values that decode from the same document put the same
    /// document back on the wire.
    #[verifier::rlimit(100)]
    proof fn lemma_encoding_agrees(t: Self, u: Self)
        requires
            <Item as WireCodec>::decodes_to(t.encoding(), u),
        ensures
            u.encoding() == t.encoding(),
    {
        Self::lemma_lookup_id(t);
        Self::lemma_lookup_name(t);
        Self::lemma_lookup_description(t);
        Self::lemma_lookup_quantity(t);
        Self::lemma_lookup_unit_amount(t);
        Self::lemma_lookup_tax(t);
        Self::lemma_lookup_item_date(t);
        Self::lemma_lookup_discount(t);
        Self::lemma_lookup_unit_of_measure(t);
        Money::lemma_round_trip(t.unit_amount, u.unit_amount);
        if let (Some(x), Some(y)) = (t.tax, u.tax) {
            Tax::lemma_round_trip(x, y);
        }
        if let (Some(x), Some(y)) = (t.discount, u.discount) {
            Discount::lemma_round_trip(x, y);
        }
        if let (Some(x), Some(y)) = (t.unit_of_measure, u.unit_of_measure) {
            UnitOfMeasure::lemma_round_trip(x, y);
        }
        assert(opt_entry("id"@, u.id) == opt_entry("id"@, t.id));
        assert(field_entry("name"@, u.name.encoding()) == field_entry("name"@, t.name.encoding()));
        assert(opt_entry("description"@, u.description) == opt_entry("description"@, t.description));
        assert(field_entry("quantity"@, u.quantity.encoding()) == field_entry("quantity"@, t.quantity.encoding()));
        assert(field_entry("unit_amount"@, u.unit_amount.encoding()) == field_entry("unit_amount"@, t.unit_amount.encoding()));
        assert(opt_entry("tax"@, u.tax) == opt_entry("tax"@, t.tax));
        assert(opt_entry("item_date"@, u.item_date) == opt_entry("item_date"@, t.item_date));
        assert(opt_entry("discount"@, u.discount) == opt_entry("discount"@, t.discount));
        assert(opt_entry("unit_of_measure"@, u.unit_of_measure) == opt_entry("unit_of_measure"@, t.unit_of_measure));
        assert(u.wire_fields() == t.wire_fields());
    }
}

impl WireCodec for Item {
    open spec fn encoding(self) -> Jv {
        Jv::Object(self.wire_fields())
    }

    open spec fn can_decode(v: Jv) -> bool {
        match v {
            Jv::Object(fs) => {
                &&& opt_ok::<String>(fs, "id"@)
                &&& req_ok::<String>(fs, "name"@)
                &&& opt_ok::<String>(fs, "description"@)
                &&& req_ok::<String>(fs, "quantity"@)
                &&& req_ok::<Money>(fs, "unit_amount"@)
                &&& opt_ok::<Tax>(fs, "tax"@)
                &&& opt_ok::<String>(fs, "item_date"@)
                &&& opt_ok::<Discount>(fs, "discount"@)
                &&& opt_ok::<UnitOfMeasure>(fs, "unit_of_measure"@)
            },
            _ => false,
        }
    }

    open spec fn decodes_to(v: Jv, t: Self) -> bool {
        match v {
            Jv::Object(fs) => {
                &&& opt_rel::<String>(fs, "id"@, t.id)
                &&& req_rel::<String>(fs, "name"@, t.name)
                &&& opt_rel::<String>(fs, "description"@, t.description)
                &&& req_rel::<String>(fs, "quantity"@, t.quantity)
                &&& req_rel::<Money>(fs, "unit_amount"@, t.unit_amount)
                &&& opt_rel::<Tax>(fs, "tax"@, t.tax)
                &&& opt_rel::<String>(fs, "item_date"@, t.item_date)
                &&& opt_rel::<Discount>(fs, "discount"@, t.discount)
                &&& opt_rel::<UnitOfMeasure>(fs, "unit_of_measure"@, t.unit_of_measure)
            },
            _ => false,
        }
    }

    #[verifier::rlimit(100)]
    fn encode(&self) -> (r: JsonValue) {
        let mut fs: Vec<(String, JsonValue)> = Vec::new();
        push_opt(&mut fs, "id", &self.id);
        push_req(&mut fs, "name", &self.name);
        push_opt(&mut fs, "description", &self.description);
        push_req(&mut fs, "quantity", &self.quantity);
        push_req(&mut fs, "unit_amount", &self.unit_amount);
        push_opt(&mut fs, "tax", &self.tax);
        push_opt(&mut fs, "item_date", &self.item_date);
        push_opt(&mut fs, "discount", &self.discount);
        push_opt(&mut fs, "unit_of_measure", &self.unit_of_measure);
        proof {
            crate::json::lemma_concat_left_empty(opt_entry("id"@, (*self).id));
            assert(jv_of_fields(fs@) == (*self).wire_fields());
        }
        JsonValue::Object(fs)
    }

    fn decode(v: &JsonValue) -> (r: Result<Self, DecodeError>) {
        match v {
            JsonValue::Object(fields) => {
                let id = match get_opt::<String>(fields, "id") {
                    Ok(x) => x,
                    Err(e) => return Err(e),
                };
                let name = match get_req::<String>(fields, "name") {
                    Ok(x) => x,
                    Err(e) => return Err(e),
                };
                let description = match get_opt::<String>(fields, "description") {
                    Ok(x) => x,
                    Err(e) => return Err(e),
                };
                let quantity = match get_req::<String>(fields, "quantity") {
                    Ok(x) => x,
                    Err(e) => return Err(e),
                };
                let unit_amount = match get_req::<Money>(fields, "unit_amount") {
                    Ok(x) => x,
                    Err(e) => return Err(e),
                };
                let tax = match get_opt::<Tax>(fields, "tax") {
                    Ok(x) => x,
                    Err(e) => return Err(e),
                };
                let item_date = match get_opt::<String>(fields, "item_date") {
                    Ok(x) => x,
                    Err(e) => return Err(e),
                };
                let discount = match get_opt::<Discount>(fields, "discount") {
                    Ok(x) => x,
                    Err(e) => return Err(e),
                };
                let unit_of_measure = match get_opt::<UnitOfMeasure>(fields, "unit_of_measure") {
                    Ok(x) => x,
                    Err(e) => return Err(e),
                };
                Ok(Item { id, name, description, quantity, unit_amount, tax, item_date, discount, unit_of_measure })
            },
            _ => Err(DecodeError::WrongType("object".to_owned())),
        }
    }

    #[verifier::rlimit(100)]
    proof fn lemma_round_trip(t: Self, u: Self) {
        Self::lemma_lookup_id(t);
        Self::lemma_lookup_name(t);
        Self::lemma_lookup_description(t);
        Self::lemma_lookup_quantity(t);
        Self::lemma_lookup_unit_amount(t);
        Self::lemma_lookup_tax(t);
        Self::lemma_lookup_item_date(t);
        Self::lemma_lookup_discount(t);
        Self::lemma_lookup_unit_of_measure(t);
        Money::lemma_round_trip(t.unit_amount, t.unit_amount);
        if let Some(x) = t.tax {
            Tax::lemma_round_trip(x, x);
        }
        if let Some(x) = t.discount {
            Discount::lemma_round_trip(x, x);
        }
        if let Some(x) = t.unit_of_measure {
            UnitOfMeasure::lemma_round_trip(x, x);
        }
        if Self::decodes_to(t.encoding(), u) {
            Self::lemma_encoding_agrees(t, u);
        }
    }
}

/// Assembles an invoice line [`Item`] step by step: the required fields must
/// all be supplied before `build` succeeds, and optional fields left unset
/// stay absent.
#[derive(Debug, PartialEq)]
pub struct ItemBuilder {
    /// The staged line item ID.
    pub id: Option<String>,
    /// The staged item name.
    pub name: Option<String>,
    /// The staged description.
    pub description: Option<String>,
    /// The staged quantity.
    pub quantity: Option<String>,
    /// The staged unit price.
    pub unit_amount: Option<Money>,
    /// The staged tax.
    pub tax: Option<Tax>,
    /// The staged item date.
    pub item_date: Option<String>,
    /// The staged discount.
    pub discount: Option<Discount>,
    /// The staged unit of measure.
    pub unit_of_measure: Option<UnitOfMeasure>,
}

impl ItemBuilder {
    /// An empty builder: nothing staged yet.
    pub fn new() -> (r: Self)
        ensures
            r == (ItemBuilder {
                id: None,
                name: None,
                description: None,
                quantity: None,
                unit_amount: None,
                tax: None,
                item_date: None,
                discount: None,
                unit_of_measure: None,
            }),
    {
        ItemBuilder {
            id: None,
            name: None,
            description: None,
            quantity: None,
            unit_amount: None,
            tax: None,
            item_date: None,
            discount: None,
            unit_of_measure: None,
        }
    }

    /// Stages the line item ID.
    pub fn id(self, value: String) -> (r: Self)
        ensures
            r == (ItemBuilder { id: Some(value), ..self }),
    {
        ItemBuilder { id: Some(value), ..self }
    }

    /// Stages the item name.
    pub fn name(self, value: String) -> (r: Self)
        ensures
            r == (ItemBuilder { name: Some(value), ..self }),
    {
        ItemBuilder { name: Some(value), ..self }
    }

    /// Stages the description.
    pub fn description(self, value: String) -> (r: Self)
        ensures
            r == (ItemBuilder { description: Some(value), ..self }),
    {
        ItemBuilder { description: Some(value), ..self }
    }

    /// Stages the quantity.
    pub fn quantity(self, value: String) -> (r: Self)
        ensures
            r == (ItemBuilder { quantity: Some(value), ..self }),
    {
        ItemBuilder { quantity: Some(value), ..self }
    }

    /// Stages the unit price.
    pub fn unit_amount(self, value: Money) -> (r: Self)
        ensures
            r == (ItemBuilder { unit_amount: Some(value), ..self }),
    {
        ItemBuilder { unit_amount: Some(value), ..self }
    }

    /// Stages the tax.
    pub fn tax(self, value: Tax) -> (r: Self)
        ensures
            r == (ItemBuilder { tax: Some(value), ..self }),
    {
        ItemBuilder { tax: Some(value), ..self }
    }

    /// Stages the item date.
    pub fn item_date(self, value: String) -> (r: Self)
        ensures
            r == (ItemBuilder { item_date: Some(value), ..self }),
    {
        ItemBuilder { item_date: Some(value), ..self }
    }

    /// Stages the discount.
    pub fn discount(self, value: Discount) -> (r: Self)
        ensures
            r == (ItemBuilder { discount: Some(value), ..self }),
    {
        ItemBuilder { discount: Some(value), ..self }
    }

    /// Stages the unit of measure.
    pub fn unit_of_measure(self, value: UnitOfMeasure) -> (r: Self)
        ensures
            r == (ItemBuilder { unit_of_measure: Some(value), ..self }),
    {
        ItemBuilder { unit_of_measure: Some(value), ..self }
    }

    /// Finishes the line item.  Succeeds exactly when every required field —
    /// `name`, `quantity` and `unit_amount` — was supplied; the error names
    /// the first missing one.  Optional fields never set stay absent.
    pub fn build(self) -> (r: Result<Item, BuildError>)
        ensures
            r is Ok <==> (self.name is Some && self.quantity is Some && self.unit_amount is Some),
            match r {
                Ok(i) => {
                    &&& Some(i.name) == self.name
                    &&& Some(i.quantity) == self.quantity
                    &&& Some(i.unit_amount) == self.unit_amount
                    &&& i.id == self.id
                    &&& i.description == self.description
                    &&& i.tax == self.tax
                    &&& i.item_date == self.item_date
                    &&& i.discount == self.discount
                    &&& i.unit_of_measure == self.unit_of_measure
                },
                Err(BuildError::UninitializedField(f)) => f@ == if self.name is None {
                    "name"@
                } else if self.quantity is None {
                    "quantity"@
                } else {
                    "unit_amount"@
                },
            },
    {
        let name = match self.name {
            Some(x) => x,
            None => {
                return Err(BuildError::UninitializedField("name".to_owned()));
            },
        };
        let quantity = match self.quantity {
            Some(x) => x,
            None => {
                return Err(BuildError::UninitializedField("quantity".to_owned()));
            },
        };
        let unit_amount = match self.unit_amount {
            Some(x) => x,
            None => {
                return Err(BuildError::UninitializedField("unit_amount".to_owned()));
            },
        };
        Ok(
            Item {
                id: self.id,
                name,
                description: self.description,
                quantity,
                unit_amount,
                tax: self.tax,
                item_date: self.item_date,
                discount: self.discount,
                unit_of_measure: self.unit_of_measure,
            },
        )
    }
}

/// The partial payment details of an invoice.
#[derive(Debug, Clone, PartialEq)]
pub struct PartialPayment {
    /// Whether the invoice allows a partial payment.
    pub allow_partial_payment: Option<bool>,
    /// The minimum amount allowed for a partial payment.
    pub minimum_amount_due: Option<Money>,
}

impl PartialPayment {
    /// The fields of this value's wire document, in emission order.
    pub open spec fn wire_fields(self) -> Seq<(Seq<char>, Jv)> {
        opt_entry("allow_partial_payment"@, self.allow_partial_payment) + opt_entry("minimum_amount_due"@, self.minimum_amount_due)
    }
}

impl WireCodec for PartialPayment {
    open spec fn encoding(self) -> Jv {
        Jv::Object(self.wire_fields())
    }

    open spec fn can_decode(v: Jv) -> bool {
        match v {
            Jv::Object(fs) => {
                &&& opt_ok::<bool>(fs, "allow_partial_payment"@)
                &&& opt_ok::<Money>(fs, "minimum_amount_due"@)
            },
            _ => false,
        }
    }

    open spec fn decodes_to(v: Jv, t: Self) -> bool {
        match v {
            Jv::Object(fs) => {
                &&& opt_rel::<bool>(fs, "allow_partial_payment"@, t.allow_partial_payment)
                &&& opt_rel::<Money>(fs, "minimum_amount_due"@, t.minimum_amount_due)
            },
            _ => false,
        }
    }

    fn encode(&self) -> (r: JsonValue) {
        let mut fs: Vec<(String, JsonValue)> = Vec::new();
        if let Some(x) = &self.allow_partial_payment {
            fs.push(("allow_partial_payment".to_owned(), x.encode()));
        }
        if let Some(x) = &self.minimum_amount_due {
            fs.push(("minimum_amount_due".to_owned(), x.encode()));
        }
        proof {
            crate::json::lemma_jv_of_fields(fs@);
            assert(jv_of_fields(fs@) =~= (*self).wire_fields());
        }
        JsonValue::Object(fs)
    }

    fn decode(v: &JsonValue) -> (r: Result<Self, DecodeError>) {
        match v {
            JsonValue::Object(fields) => {
                let allow_partial_payment = match get_opt::<bool>(fields, "allow_partial_payment") {
                    Ok(x) => x,
                    Err(e) => return Err(e),
                };
                let minimum_amount_due = match get_opt::<Money>(fields, "minimum_amount_due") {
                    Ok(x) => x,
                    Err(e) => return Err(e),
                };
                Ok(PartialPayment { allow_partial_payment, minimum_amount_due })
            },
            _ => Err(DecodeError::WrongType("object".to_owned())),
        }
    }

    proof fn lemma_round_trip(t: Self, u: Self) {
        reveal_strlit("allow_partial_payment");
        reveal_strlit("minimum_amount_due");
        assert("allow_partial_payment"@.len() == 21);
        assert("minimum_amount_due"@.len() == 18);
        if let Some(x) = t.minimum_amount_due {
            Money::lemma_round_trip(x, x);
        }
        if Self::decodes_to(t.encoding(), u) {
            if let (Some(x), Some(y)) = (t.minimum_amount_due, u.minimum_amount_due) {
                Money::lemma_round_trip(x, y);
            }
            assert(u.wire_fields() =~= t.wire_fields());
        }
    }
}

/// The invoice configuration: partial payment, tip, and tax timing.
#[derive(Debug, Clone, PartialEq)]
pub struct Configuration {
    /// Whether the tax is calculated before or after a discount.
    pub tax_calculated_after_discount: Option<bool>,
    /// Whether the unit price includes tax.
    pub tax_inclusive: Option<bool>,
    /// Whether the invoice lets the customer enter a tip during payment.
    pub allow_tip: Option<bool>,
    /// The partial payment details.
    pub partial_payment: Option<PartialPayment>,
    /// The template ID determining the layout of the invoice.
    pub template_id: Option<String>,
}

impl Configuration {
    /// The fields of this value's wire document, in emission order.
    pub open spec fn wire_fields(self) -> Seq<(Seq<char>, Jv)> {
        opt_entry("tax_calculated_after_discount"@, self.tax_calculated_after_discount) + opt_entry("tax_inclusive"@, self.tax_inclusive) + opt_entry("allow_tip"@, self.allow_tip) + opt_entry("partial_payment"@, self.partial_payment) + opt_entry("template_id"@, self.template_id)
    }
}

impl WireCodec for Configuration {
    open spec fn encoding(self) -> Jv {
        Jv::Object(self.wire_fields())
    }

    open spec fn can_decode(v: Jv) -> bool {
        match v {
            Jv::Object(fs) => {
                &&& opt_ok::<bool>(fs, "tax_calculated_after_discount"@)
                &&& opt_ok::<bool>(fs, "tax_inclusive"@)
                &&& opt_ok::<bool>(fs, "allow_tip"@)
                &&& opt_ok::<PartialPayment>(fs, "partial_payment"@)
                &&& opt_ok::<String>(fs, "template_id"@)
            },
            _ => false,
        }
    }

    open spec fn decodes_to(v: Jv, t: Self) -> bool {
        match v {
            Jv::Object(fs) => {
                &&& opt_rel::<bool>(fs, "tax_calculated_after_discount"@, t.tax_calculated_after_discount)
                &&& opt_rel::<bool>(fs, "tax_inclusive"@, t.tax_inclusive)
                &&& opt_rel::<bool>(fs, "allow_tip"@, t.allow_tip)
                &&& opt_rel::<PartialPayment>(fs, "partial_payment"@, t.partial_payment)
                &&& opt_rel::<String>(fs, "template_id"@, t.template_id)
            },
            _ => false,
        }
    }

    fn encode(&self) -> (r: JsonValue) {
        let mut fs: Vec<(String, JsonValue)> = Vec::new();
        push_opt(&mut fs, "tax_calculated_after_discount", &self.tax_calculated_after_discount);
        push_opt(&mut fs, "tax_inclusive", &self.tax_inclusive);
        push_opt(&mut fs, "allow_tip", &self.allow_tip);
        push_opt(&mut fs, "partial_payment", &self.partial_payment);
        push_opt(&mut fs, "template_id", &self.template_id);
        proof {
            crate::json::lemma_concat_left_empty(opt_entry("tax_calculated_after_discount"@, (*self).tax_calculated_after_discount));
            assert(jv_of_fields(fs@) == (*self).wire_fields());
        }
        JsonValue::Object(fs)
    }

    fn decode(v: &JsonValue) -> (r: Result<Self, DecodeError>) {
        match v {
            JsonValue::Object(fields) => {
                let tax_calculated_after_discount = match get_opt::<bool>(fields, "tax_calculated_after_discount") {
                    Ok(x) => x,
                    Err(e) => return Err(e),
                };
                let tax_inclusive = match get_opt::<bool>(fields, "tax_inclusive") {
                    Ok(x) => x,
                    Err(e) => return Err(e),
                };
                let allow_tip = match get_opt::<bool>(fields, "allow_tip") {
                    Ok(x) => x,
                    Err(e) => return Err(e),
                };
                let partial_payment = match get_opt::<PartialPayment>(fields, "partial_payment") {
                    Ok(x) => x,
                    Err(e) => return Err(e),
                };
                let template_id = match get_opt::<String>(fields, "template_id") {
                    Ok(x) => x,
                    Err(e) => return Err(e),
                };
                Ok(Configuration { tax_calculated_after_discount, tax_inclusive, allow_tip, partial_payment, template_id })
            },
            _ => Err(DecodeError::WrongType("object".to_owned())),
        }
    }

    proof fn lemma_round_trip(t: Self, u: Self) {
        reveal_strlit("tax_calculated_after_discount");
        reveal_strlit("tax_inclusive");
        reveal_strlit("allow_tip");
        reveal_strlit("partial_payment");
        reveal_strlit("template_id");
        assert("tax_calculated_after_discount"@.len() == 29);
        assert("tax_inclusive"@.len() == 13);
        assert("allow_tip"@.len() == 9);
        assert("partial_payment"@.len() == 15);
        assert("template_id"@.len() == 11);
        if let Some(x) = t.partial_payment {
            PartialPayment::lemma_round_trip(x, x);
        }
        if Self::decodes_to(t.encoding(), u) {
            if let (Some(x), Some(y)) = (t.partial_payment, u.partial_payment) {
                PartialPayment::lemma_round_trip(x, y);
            }
            assert(u.wire_fields() =~= t.wire_fields());
        }
    }
}

/// The aggregated discount of an invoice.
#[derive(Debug, PartialEq)]
pub struct AggregatedDiscount {
    /// The discount at invoice level, as a percent or amount.
    pub invoice_discount: Option<Discount>,
    /// The discount at item level, subtracted from each item amount.
    pub item_discount: Option<Money>,
}

/// The shipping fee of an invoice.
#[derive(Debug, Clone, PartialEq)]
pub struct ShippingCost {
    /// The shipping amount.
    pub amount: Option<Money>,
    /// The tax associated with the shipping.
    pub tax: Option<Tax>,
}

/// A custom amount applied to an invoice.
#[derive(Debug, Clone, PartialEq)]
pub struct CustomAmount {
    /// The label of the custom amount.
    pub label: String,
    /// The custom amount value.
    pub amount: Option<Money>,
}

impl CustomAmount {
    /// The fields of this value's wire document, in emission order.
    pub open spec fn wire_fields(self) -> Seq<(Seq<char>, Jv)> {
        field_entry("label"@, self.label.encoding()) + opt_entry("amount"@, self.amount)
    }
}

impl WireCodec for CustomAmount {
    open spec fn encoding(self) -> Jv {
        Jv::Object(self.wire_fields())
    }

    open spec fn can_decode(v: Jv) -> bool {
        match v {
            Jv::Object(fs) => {
                &&& req_ok::<String>(fs, "label"@)
                &&& opt_ok::<Money>(fs, "amount"@)
            },
            _ => false,
        }
    }

    open spec fn decodes_to(v: Jv, t: Self) -> bool {
        match v {
            Jv::Object(fs) => {
                &&& req_rel::<String>(fs, "label"@, t.label)
                &&& opt_rel::<Money>(fs, "amount"@, t.amount)
            },
            _ => false,
        }
    }

    fn encode(&self) -> (r: JsonValue) {
        let mut fs: Vec<(String, JsonValue)> = Vec::new();
        fs.push(("label".to_owned(), self.label.encode()));
        if let Some(x) = &self.amount {
            fs.push(("amount".to_owned(), x.encode()));
        }
        proof {
            crate::json::lemma_jv_of_fields(fs@);
            assert(jv_of_fields(fs@) =~= (*self).wire_fields());
        }
        JsonValue::Object(fs)
    }

    fn decode(v: &JsonValue) -> (r: Result<Self, DecodeError>) {
        match v {
            JsonValue::Object(fields) => {
                let label = match get_req::<String>(fields, "label") {
                    Ok(x) => x,
                    Err(e) => return Err(e),
                };
                let amount = match get_opt::<Money>(fields, "amount") {
                    Ok(x) => x,
                    Err(e) => return Err(e),
                };
                Ok(CustomAmount { label, amount })
            },
            _ => Err(DecodeError::WrongType("object".to_owned())),
        }
    }

    proof fn lemma_round_trip(t: Self, u: Self) {
        reveal_strlit("label");
        reveal_strlit("amount");
        assert("label"@.len() == 5);
        assert("amount"@.len() == 6);
        if let Some(x) = t.amount {
            Money::lemma_round_trip(x, x);
        }
        if Self::decodes_to(t.encoding(), u) {
            if let (Some(x), Some(y)) = (t.amount, u.amount) {
                Money::lemma_round_trip(x, y);
            }
            assert(u.wire_fields() =~= t.wire_fields());
        }
    }
}

/// The breakdown of an invoice amount: item total, discount, tax, shipping
/// and custom amounts.
#[derive(Debug, PartialEq)]
pub struct Breakdown {
    /// The subtotal for all items.
    pub item_total: Option<Money>,
    /// The discount at the item or invoice level, or both.
    pub discount: Option<AggregatedDiscount>,
    /// The aggregated amount of the item and shipping taxes.
    pub tax_total: Option<Money>,
    /// The shipping fee for all items, including tax on shipping.
    pub shipping: Option<ShippingCost>,
    /// The custom amount to apply to the invoice.
    pub custom: Option<CustomAmount>,
}

impl ShippingCost {
    /// The fields of this value's wire document, in emission order.
    pub open spec fn wire_fields(self) -> Seq<(Seq<char>, Jv)> {
        opt_entry("amount"@, self.amount) + opt_entry("tax"@, self.tax)
    }
}

impl WireCodec for ShippingCost {
    open spec fn encoding(self) -> Jv {
        Jv::Object(self.wire_fields())
    }

    open spec fn can_decode(v: Jv) -> bool {
        match v {
            Jv::Object(fs) => {
                &&& opt_ok::<Money>(fs, "amount"@)
                &&& opt_ok::<Tax>(fs, "tax"@)
            },
            _ => false,
        }
    }

    open spec fn decodes_to(v: Jv, t: Self) -> bool {
        match v {
            Jv::Object(fs) => {
                &&& opt_rel::<Money>(fs, "amount"@, t.amount)
                &&& opt_rel::<Tax>(fs, "tax"@, t.tax)
            },
            _ => false,
        }
    }

    fn encode(&self) -> (r: JsonValue) {
        let mut fs: Vec<(String, JsonValue)> = Vec::new();
        if let Some(x) = &self.amount {
            fs.push(("amount".to_owned(), x.encode()));
        }
        if let Some(x) = &self.tax {
            fs.push(("tax".to_owned(), x.encode()));
        }
        proof {
            crate::json::lemma_jv_of_fields(fs@);
            assert(jv_of_fields(fs@) =~= (*self).wire_fields());
        }
        JsonValue::Object(fs)
    }

    fn decode(v: &JsonValue) -> (r: Result<Self, DecodeError>) {
        match v {
            JsonValue::Object(fields) => {
                let amount = match get_opt::<Money>(fields, "amount") {
                    Ok(x) => x,
                    Err(e) => return Err(e),
                };
                let tax = match get_opt::<Tax>(fields, "tax") {
                    Ok(x) => x,
                    Err(e) => return Err(e),
                };
                Ok(ShippingCost { amount, tax })
            },
            _ => Err(DecodeError::WrongType("object".to_owned())),
        }
    }

    proof fn lemma_round_trip(t: Self, u: Self) {
        reveal_strlit("amount");
        reveal_strlit("tax");
        assert("amount"@.len() == 6);
        assert("tax"@.len() == 3);
        if let Some(x) = t.amount {
            Money::lemma_round_trip(x, x);
        }
        if let Some(x) = t.tax {
            Tax::lemma_round_trip(x, x);
        }
        if Self::decodes_to(t.encoding(), u) {
            if let (Some(x), Some(y)) = (t.amount, u.amount) {
                Money::lemma_round_trip(x, y);
            }
            if let (Some(x), Some(y)) = (t.tax, u.tax) {
                Tax::lemma_round_trip(x, y);
            }
            assert(u.wire_fields() =~= t.wire_fields());
        }
    }
}

/// An amount of money on an invoice, with an optional breakdown.
#[derive(Debug, PartialEq)]
pub struct Amount {
    /// The three-character ISO-4217 currency code that identifies the currency.
    pub currency_code: Currency,
    /// The value, as text: an integer for currencies that are not typically
    /// fractional, a decimal fraction otherwise.
    pub value: String,
    /// The breakdown of the amount.
    pub breakdown: Option<Breakdown>,
}

impl Amount {
    /// Creates a new amount with the required values.
    pub fn new(currency_code: Currency, value: &str) -> (r: Self)
        ensures
            r.currency_code == currency_code,
            r.value@ == value@,
            r.breakdown is None,
    {
        Amount { currency_code, value: value.to_owned(), breakdown: None }
    }
}

/// The fields of an invoice amount's wire document, in emission order.  The
/// amount, its breakdown, the aggregated discount and the discount form a
/// cycle — a discount may carry an amount of its own — so their shapes are
/// defined together, descending along the values.
pub open spec fn amount_wire_fields(a: Amount) -> Seq<(Seq<char>, Jv)>
    decreases a,
{
    field_entry("currency_code"@, a.currency_code.encoding()) + field_entry(
        "value"@,
        a.value.encoding(),
    ) + (match a.breakdown {
        Some(b) => field_entry("breakdown"@, Jv::Object(breakdown_wire_fields(b))),
        None => seq![],
    })
}

/// The fields of an invoice breakdown's wire document, in emission order.
pub open spec fn breakdown_wire_fields(b: Breakdown) -> Seq<(Seq<char>, Jv)>
    decreases b,
{
    opt_entry("item_total"@, b.item_total) + (match b.discount {
        Some(d) => field_entry("discount"@, Jv::Object(agg_discount_wire_fields(d))),
        None => seq![],
    }) + opt_entry("tax_total"@, b.tax_total) + opt_entry("shipping"@, b.shipping) + opt_entry(
        "custom"@,
        b.custom,
    )
}

/// The fields of an aggregated discount's wire document, in emission order.
pub open spec fn agg_discount_wire_fields(d: AggregatedDiscount) -> Seq<(Seq<char>, Jv)>
    decreases d,
{
    (match d.invoice_discount {
        Some(x) => field_entry("invoice_discount"@, Jv::Object(discount_wire_fields(x))),
        None => seq![],
    }) + opt_entry("item_discount"@, d.item_discount)
}

/// The fields of a discount's wire document, in emission order.
pub open spec fn discount_wire_fields(d: Discount) -> Seq<(Seq<char>, Jv)>
    decreases d,
{
    opt_entry("percent"@, d.percent) + (match d.amount {
        Some(bx) => field_entry("amount"@, Jv::Object(amount_wire_fields(*bx))),
        None => seq![],
    })
}

/// Whether a document decodes to some invoice amount; defined together with
/// its breakdown and discounts, descending along the document.
pub open spec fn amount_can_decode(v: Jv) -> bool
    decreases v,
    via amount_can_decode_decreases
{
    match v {
        Jv::Object(fs) => {
            &&& req_ok::<Currency>(fs, "currency_code"@)
            &&& req_ok::<String>(fs, "value"@)
            &&& match lookup(fs, "breakdown"@) {
                Some(bv) => breakdown_can_decode(bv),
                None => true,
            }
        },
        _ => false,
    }
}

#[via_fn]
proof fn amount_can_decode_decreases(v: Jv) {
    crate::json::lemma_lookup_smaller(v, "breakdown"@);
}

/// Whether a document decodes to some invoice breakdown.
pub open spec fn breakdown_can_decode(v: Jv) -> bool
    decreases v,
    via breakdown_can_decode_decreases
{
    match v {
        Jv::Object(fs) => {
            &&& opt_ok::<Money>(fs, "item_total"@)
            &&& match lookup(fs, "discount"@) {
                Some(dv) => agg_discount_can_decode(dv),
                None => true,
            }
            &&& opt_ok::<Money>(fs, "tax_total"@)
            &&& opt_ok::<ShippingCost>(fs, "shipping"@)
            &&& opt_ok::<CustomAmount>(fs, "custom"@)
        },
        _ => false,
    }
}

#[via_fn]
proof fn breakdown_can_decode_decreases(v: Jv) {
    crate::json::lemma_lookup_smaller(v, "discount"@);
}

/// Whether a document decodes to some aggregated discount.
pub open spec fn agg_discount_can_decode(v: Jv) -> bool
    decreases v,
    via agg_discount_can_decode_decreases
{
    match v {
        Jv::Object(fs) => {
            &&& match lookup(fs, "invoice_discount"@) {
                Some(dv) => discount_can_decode(dv),
                None => true,
            }
            &&& opt_ok::<Money>(fs, "item_discount"@)
        },
        _ => false,
    }
}

#[via_fn]
proof fn agg_discount_can_decode_decreases(v: Jv) {
    crate::json::lemma_lookup_smaller(v, "invoice_discount"@);
}

/// Whether a document decodes to some discount.
pub open spec fn discount_can_decode(v: Jv) -> bool
    decreases v,
    via discount_can_decode_decreases
{
    match v {
        Jv::Object(fs) => {
            &&& opt_ok::<String>(fs, "percent"@)
            &&& match lookup(fs, "amount"@) {
                Some(av) => amount_can_decode(av),
                None => true,
            }
        },
        _ => false,
    }
}

#[via_fn]
proof fn discount_can_decode_decreases(v: Jv) {
    crate::json::lemma_lookup_smaller(v, "amount"@);
}

/// Whether a document decodes to exactly this invoice amount; defined
/// together with its breakdown and discounts, descending along the value.
pub open spec fn amount_decodes_to(v: Jv, t: Amount) -> bool
    decreases t,
{
    match v {
        Jv::Object(fs) => {
            &&& req_rel::<Currency>(fs, "currency_code"@, t.currency_code)
            &&& req_rel::<String>(fs, "value"@, t.value)
            &&& match (lookup(fs, "breakdown"@), t.breakdown) {
                (Some(bv), Some(b)) => breakdown_decodes_to(bv, b),
                (None, None) => true,
                _ => false,
            }
        },
        _ => false,
    }
}

/// Whether a document decodes to exactly this invoice breakdown.
pub open spec fn breakdown_decodes_to(v: Jv, t: Breakdown) -> bool
    decreases t,
{
    match v {
        Jv::Object(fs) => {
            &&& opt_rel::<Money>(fs, "item_total"@, t.item_total)
            &&& match (lookup(fs, "discount"@), t.discount) {
                (Some(dv), Some(d)) => agg_discount_decodes_to(dv, d),
                (None, None) => true,
                _ => false,
            }
            &&& opt_rel::<Money>(fs, "tax_total"@, t.tax_total)
            &&& opt_rel::<ShippingCost>(fs, "shipping"@, t.shipping)
            &&& opt_rel::<CustomAmount>(fs, "custom"@, t.custom)
        },
        _ => false,
    }
}

/// Whether a document decodes to exactly this aggregated discount.
pub open spec fn agg_discount_decodes_to(v: Jv, t: AggregatedDiscount) -> bool
    decreases t,
{
    match v {
        Jv::Object(fs) => {
            &&& match (lookup(fs, "invoice_discount"@), t.invoice_discount) {
                (Some(dv), Some(d)) => discount_decodes_to(dv, d),
                (None, None) => true,
                _ => false,
            }
            &&& opt_rel::<Money>(fs, "item_discount"@, t.item_discount)
        },
        _ => false,
    }
}

/// Whether a document decodes to exactly this discount.
pub open spec fn discount_decodes_to(v: Jv, t: Discount) -> bool
    decreases t,
{
    match v {
        Jv::Object(fs) => {
            &&& opt_rel::<String>(fs, "percent"@, t.percent)
            &&& match (lookup(fs, "amount"@), t.amount) {
                (Some(av), Some(bx)) => amount_decodes_to(av, *bx),
                (None, None) => true,
                _ => false,
            }
        },
        _ => false,
    }
}

/// The round-trip law for the amount cycle, proved by descending along the
/// value together with [`lemma_breakdown_round_trip`] and its kin.
pub proof fn lemma_amount_round_trip(t: Amount, u: Amount)
    ensures
        amount_can_decode(Jv::Object(amount_wire_fields(t))),
        amount_decodes_to(Jv::Object(amount_wire_fields(t)), u) ==> amount_wire_fields(u)
            == amount_wire_fields(t),
    decreases t,
{
    reveal_strlit("currency_code");
    reveal_strlit("value");
    reveal_strlit("breakdown");
    assert("currency_code"@.len() == 13);
    assert("value"@.len() == 5);
    assert("breakdown"@.len() == 9);
    Currency::lemma_round_trip(t.currency_code, u.currency_code);
    if let Some(b) = t.breakdown {
        lemma_breakdown_round_trip(b, b);
    }
    if amount_decodes_to(Jv::Object(amount_wire_fields(t)), u) {
        if let (Some(b), Some(ub)) = (t.breakdown, u.breakdown) {
            lemma_breakdown_round_trip(b, ub);
        }
        assert(amount_wire_fields(u) =~= amount_wire_fields(t));
    }
}

/// The round-trip law for the breakdown of an invoice amount.
pub proof fn lemma_breakdown_round_trip(t: Breakdown, u: Breakdown)
    ensures
        breakdown_can_decode(Jv::Object(breakdown_wire_fields(t))),
        breakdown_decodes_to(Jv::Object(breakdown_wire_fields(t)), u) ==> breakdown_wire_fields(u)
            == breakdown_wire_fields(t),
    decreases t,
{
    reveal_strlit("item_total");
    reveal_strlit("discount");
    reveal_strlit("tax_total");
    reveal_strlit("shipping");
    reveal_strlit("custom");
    assert("item_total"@.len() == 10);
    assert("discount"@.len() == 8);
    assert("tax_total"@.len() == 9);
    assert("shipping"@.len() == 8);
    assert("custom"@.len() == 6);
    assert("discount"@[0] == 'd');
    assert("shipping"@[0] == 's');
    if let Some(x) = t.item_total {
        Money::lemma_round_trip(x, x);
    }
    if let Some(d) = t.discount {
        lemma_agg_discount_round_trip(d, d);
    }
    if let Some(x) = t.tax_total {
        Money::lemma_round_trip(x, x);
    }
    if let Some(x) = t.shipping {
        ShippingCost::lemma_round_trip(x, x);
    }
    if let Some(x) = t.custom {
        CustomAmount::lemma_round_trip(x, x);
    }
    if breakdown_decodes_to(Jv::Object(breakdown_wire_fields(t)), u) {
        if let (Some(x), Some(y)) = (t.item_total, u.item_total) {
            Money::lemma_round_trip(x, y);
        }
        if let (Some(d), Some(ud)) = (t.discount, u.discount) {
            lemma_agg_discount_round_trip(d, ud);
        }
        if let (Some(x), Some(y)) = (t.tax_total, u.tax_total) {
            Money::lemma_round_trip(x, y);
        }
        if let (Some(x), Some(y)) = (t.shipping, u.shipping) {
            ShippingCost::lemma_round_trip(x, y);
        }
        if let (Some(x), Some(y)) = (t.custom, u.custom) {
            CustomAmount::lemma_round_trip(x, y);
        }
        assert(breakdown_wire_fields(u) =~= breakdown_wire_fields(t));
    }
}

/// The round-trip law for the aggregated discount.
pub proof fn lemma_agg_discount_round_trip(t: AggregatedDiscount, u: AggregatedDiscount)
    ensures
        agg_discount_can_decode(Jv::Object(agg_discount_wire_fields(t))),
        agg_discount_decodes_to(Jv::Object(agg_discount_wire_fields(t)), u)
            ==> agg_discount_wire_fields(u) == agg_discount_wire_fields(t),
    decreases t,
{
    reveal_strlit("invoice_discount");
    reveal_strlit("item_discount");
    assert("invoice_discount"@.len() == 16);
    assert("item_discount"@.len() == 13);
    if let Some(d) = t.invoice_discount {
        lemma_discount_round_trip(d, d);
    }
    if let Some(x) = t.item_discount {
        Money::lemma_round_trip(x, x);
    }
    if agg_discount_decodes_to(Jv::Object(agg_discount_wire_fields(t)), u) {
        if let (Some(d), Some(ud)) = (t.invoice_discount, u.invoice_discount) {
            lemma_discount_round_trip(d, ud);
        }
        if let (Some(x), Some(y)) = (t.item_discount, u.item_discount) {
            Money::lemma_round_trip(x, y);
        }
        assert(agg_discount_wire_fields(u) =~= agg_discount_wire_fields(t));
    }
}

/// The round-trip law for a discount.
pub proof fn lemma_discount_round_trip(t: Discount, u: Discount)
    ensures
        discount_can_decode(Jv::Object(discount_wire_fields(t))),
        discount_decodes_to(Jv::Object(discount_wire_fields(t)), u) ==> discount_wire_fields(u)
            == discount_wire_fields(t),
    decreases t,
{
    reveal_strlit("percent");
    reveal_strlit("amount");
    assert("percent"@.len() == 7);
    assert("amount"@.len() == 6);
    if let Some(bx) = t.amount {
        lemma_amount_round_trip(*bx, *bx);
    }
    if discount_decodes_to(Jv::Object(discount_wire_fields(t)), u) {
        if let (Some(bx), Some(ubx)) = (t.amount, u.amount) {
            lemma_amount_round_trip(*bx, *ubx);
        }
        assert(discount_wire_fields(u) =~= discount_wire_fields(t));
    }
}


impl Amount {
    /// Encodes this amount as a JSON document, descending along the value
    /// through its breakdown and discounts.
    fn encode_doc(&self) -> (r: JsonValue)
        ensures
            r@ == Jv::Object(amount_wire_fields(*self)),
        decreases *self,
    {
        let mut fs: Vec<(String, JsonValue)> = Vec::new();
        push_req(&mut fs, "currency_code", &self.currency_code);
        push_req(&mut fs, "value", &self.value);
        if let Some(b) = &self.breakdown {
            proof {
                assert((*self).breakdown == Some(*b));
                assert(decreases_to!(*self => (*self).breakdown));
                assert(decreases_to!((*self).breakdown => (*self).breakdown->Some_0));
            }
            let ghost prev = jv_of_fields(fs@);
            let bv = b.encode_doc();
            fs.push(("breakdown".to_owned(), bv));
            proof {
                crate::json::lemma_acc_step(
                    prev,
                    field_entry("breakdown"@, Jv::Object(breakdown_wire_fields(*b))),
                );
            }
        }
        proof {
            crate::json::lemma_concat_left_empty(
                field_entry("currency_code"@, (*self).currency_code.encoding()),
            );
            assert(jv_of_fields(fs@) =~= amount_wire_fields(*self));
        }
        JsonValue::Object(fs)
    }

    /// Decodes an amount from a JSON document, descending along the document
    /// through its breakdown and discounts.
    fn decode_doc(v: &JsonValue) -> (r: Result<Amount, DecodeError>)
        ensures
            r is Ok <==> amount_can_decode(v@),
            match r {
                Ok(t) => amount_decodes_to(v@, t),
                Err(_) => true,
            },
        decreases *v,
    {
        match v {
            JsonValue::Object(fields) => {
                let currency_code = match get_req::<Currency>(fields, "currency_code") {
                    Ok(x) => x,
                    Err(e) => return Err(e),
                };
                let value = match get_req::<String>(fields, "value") {
                    Ok(x) => x,
                    Err(e) => return Err(e),
                };
                let breakdown = match obj_get(fields, "breakdown") {
                    Some(j) => {
            proof {
                broadcast use vstd::std_specs::vec::group_vec_axioms, vstd::seq::group_seq_axioms;

                let i = choose|i: int| 0 <= i < fields@.len() && fields@[i].1 == *j;
                assert(decreases_to!(*v => (*v)->Object_0));
                assert(decreases_to!(*fields => fields@));
                assert(decreases_to!(fields@ => fields@[i]));
                assert(decreases_to!(fields@[i] => fields@[i].1));
            }
                        match Breakdown::decode_doc(j) {
                            Ok(b) => Some(b),
                            Err(e) => return Err(e),
                        }
                    },
                    None => None,
                };
                Ok(Amount { currency_code, value, breakdown })
            },
            _ => Err(DecodeError::WrongType("object".to_owned())),
        }
    }
}

impl Breakdown {
    /// Encodes this breakdown as a JSON document, descending along the value.
    fn encode_doc(&self) -> (r: JsonValue)
        ensures
            r@ == Jv::Object(breakdown_wire_fields(*self)),
        decreases *self,
    {
        let mut fs: Vec<(String, JsonValue)> = Vec::new();
        push_opt(&mut fs, "item_total", &self.item_total);
        if let Some(d) = &self.discount {
            proof {
                assert((*self).discount == Some(*d));
                assert(decreases_to!(*self => (*self).discount));
                assert(decreases_to!((*self).discount => (*self).discount->Some_0));
            }
            let ghost prev = jv_of_fields(fs@);
            let dv = d.encode_doc();
            fs.push(("discount".to_owned(), dv));
            proof {
                crate::json::lemma_acc_step(
                    prev,
                    field_entry("discount"@, Jv::Object(agg_discount_wire_fields(*d))),
                );
            }
        }
        push_opt(&mut fs, "tax_total", &self.tax_total);
        push_opt(&mut fs, "shipping", &self.shipping);
        push_opt(&mut fs, "custom", &self.custom);
        proof {
            crate::json::lemma_concat_left_empty(opt_entry("item_total"@, (*self).item_total));
            assert(jv_of_fields(fs@) =~= breakdown_wire_fields(*self));
        }
        JsonValue::Object(fs)
    }

    /// Decodes a breakdown from a JSON document, descending along the
    /// document.
    fn decode_doc(v: &JsonValue) -> (r: Result<Breakdown, DecodeError>)
        ensures
            r is Ok <==> breakdown_can_decode(v@),
            match r {
                Ok(t) => breakdown_decodes_to(v@, t),
                Err(_) => true,
            },
        decreases *v,
    {
        match v {
            JsonValue::Object(fields) => {
                let item_total = match get_opt::<Money>(fields, "item_total") {
                    Ok(x) => x,
                    Err(e) => return Err(e),
                };
                let discount = match obj_get(fields, "discount") {
                    Some(j) => {
            proof {
                broadcast use vstd::std_specs::vec::group_vec_axioms, vstd::seq::group_seq_axioms;

                let i = choose|i: int| 0 <= i < fields@.len() && fields@[i].1 == *j;
                assert(decreases_to!(*v => (*v)->Object_0));
                assert(decreases_to!(*fields => fields@));
                assert(decreases_to!(fields@ => fields@[i]));
                assert(decreases_to!(fields@[i] => fields@[i].1));
            }
                        match AggregatedDiscount::decode_doc(j) {
                            Ok(d) => Some(d),
                            Err(e) => return Err(e),
                        }
                    },
                    None => None,
                };
                let tax_total = match get_opt::<Money>(fields, "tax_total") {
                    Ok(x) => x,
                    Err(e) => return Err(e),
                };
                let shipping = match get_opt::<ShippingCost>(fields, "shipping") {
                    Ok(x) => x,
                    Err(e) => return Err(e),
                };
                let custom = match get_opt::<CustomAmount>(fields, "custom") {
                    Ok(x) => x,
                    Err(e) => return Err(e),
                };
                Ok(Breakdown { item_total, discount, tax_total, shipping, custom })
            },
            _ => Err(DecodeError::WrongType("object".to_owned())),
        }
    }
}

impl AggregatedDiscount {
    /// Encodes this aggregated discount as a JSON document, descending along
    /// the value.
    fn encode_doc(&self) -> (r: JsonValue)
        ensures
            r@ == Jv::Object(agg_discount_wire_fields(*self)),
        decreases *self,
    {
        let mut fs: Vec<(String, JsonValue)> = Vec::new();
        if let Some(d) = &self.invoice_discount {
            proof {
                assert((*self).invoice_discount == Some(*d));
                assert(decreases_to!(*self => (*self).invoice_discount));
                assert(decreases_to!((*self).invoice_discount => (*self).invoice_discount->Some_0));
            }
            let dv = d.encode_doc();
            fs.push(("invoice_discount".to_owned(), dv));
            proof {
                crate::json::lemma_acc_step(
                    Seq::empty(),
                    field_entry("invoice_discount"@, Jv::Object(discount_wire_fields(*d))),
                );
            }
        }
        push_opt(&mut fs, "item_discount", &self.item_discount);
        let ghost head = (*self).invoice_discount;
        proof {
            crate::json::lemma_concat_left_empty(
                match head {
                    Some(x) => field_entry(
                        "invoice_discount"@,
                        Jv::Object(discount_wire_fields(x)),
                    ),
                    None => seq![],
                },
            );
            assert(jv_of_fields(fs@) =~= agg_discount_wire_fields(*self));
        }
        JsonValue::Object(fs)
    }

    /// Decodes an aggregated discount from a JSON document, descending along
    /// the document.
    fn decode_doc(v: &JsonValue) -> (r: Result<AggregatedDiscount, DecodeError>)
        ensures
            r is Ok <==> agg_discount_can_decode(v@),
            match r {
                Ok(t) => agg_discount_decodes_to(v@, t),
                Err(_) => true,
            },
        decreases *v,
    {
        match v {
            JsonValue::Object(fields) => {
                let invoice_discount = match obj_get(fields, "invoice_discount") {
                    Some(j) => {
            proof {
                broadcast use vstd::std_specs::vec::group_vec_axioms, vstd::seq::group_seq_axioms;

                let i = choose|i: int| 0 <= i < fields@.len() && fields@[i].1 == *j;
                assert(decreases_to!(*v => (*v)->Object_0));
                assert(decreases_to!(*fields => fields@));
                assert(decreases_to!(fields@ => fields@[i]));
                assert(decreases_to!(fields@[i] => fields@[i].1));
            }
                        match Discount::decode_doc(j) {
                            Ok(d) => Some(d),
                            Err(e) => return Err(e),
                        }
                    },
                    None => None,
                };
                let item_discount = match get_opt::<Money>(fields, "item_discount") {
                    Ok(x) => x,
                    Err(e) => return Err(e),
                };
                Ok(AggregatedDiscount { invoice_discount, item_discount })
            },
            _ => Err(DecodeError::WrongType("object".to_owned())),
        }
    }
}

impl Discount {
    /// Encodes this discount as a JSON document, descending along the value.
    fn encode_doc(&self) -> (r: JsonValue)
        ensures
            r@ == Jv::Object(discount_wire_fields(*self)),
        decreases *self,
    {
        let mut fs: Vec<(String, JsonValue)> = Vec::new();
        push_opt(&mut fs, "percent", &self.percent);
        if let Some(bx) = &self.amount {
            proof {
                assert((*self).amount == Some(*bx));
                assert(decreases_to!(*self => (*self).amount));
                assert(decreases_to!((*self).amount => (*self).amount->Some_0));
            }
            let ghost prev = jv_of_fields(fs@);
            let av = (&**bx).encode_doc();
            fs.push(("amount".to_owned(), av));
            proof {
                crate::json::lemma_acc_step(
                    prev,
                    field_entry("amount"@, Jv::Object(amount_wire_fields(**bx))),
                );
            }
        }
        proof {
            crate::json::lemma_concat_left_empty(opt_entry("percent"@, (*self).percent));
            assert(jv_of_fields(fs@) =~= discount_wire_fields(*self));
        }
        JsonValue::Object(fs)
    }

    /// Decodes a discount from a JSON document, descending along the
    /// document.
    fn decode_doc(v: &JsonValue) -> (r: Result<Discount, DecodeError>)
        ensures
            r is Ok <==> discount_can_decode(v@),
            match r {
                Ok(t) => discount_decodes_to(v@, t),
                Err(_) => true,
            },
        decreases *v,
    {
        match v {
            JsonValue::Object(fields) => {
                let percent = match get_opt::<String>(fields, "percent") {
                    Ok(x) => x,
                    Err(e) => return Err(e),
                };
                let amount = match obj_get(fields, "amount") {
                    Some(j) => {
            proof {
                broadcast use vstd::std_specs::vec::group_vec_axioms, vstd::seq::group_seq_axioms;

                let i = choose|i: int| 0 <= i < fields@.len() && fields@[i].1 == *j;
                assert(decreases_to!(*v => (*v)->Object_0));
                assert(decreases_to!(*fields => fields@));
                assert(decreases_to!(fields@ => fields@[i]));
                assert(decreases_to!(fields@[i] => fields@[i].1));
            }
                        match Amount::decode_doc(j) {
                            Ok(a) => Some(Box::new(a)),
                            Err(e) => return Err(e),
                        }
                    },
                    None => None,
                };
                Ok(Discount { percent, amount })
            },
            _ => Err(DecodeError::WrongType("object".to_owned())),
        }
    }
}


impl WireCodec for Amount {
    open spec fn encoding(self) -> Jv {
        Jv::Object(amount_wire_fields(self))
    }

    open spec fn can_decode(v: Jv) -> bool {
        amount_can_decode(v)
    }

    open spec fn decodes_to(v: Jv, t: Self) -> bool {
        amount_decodes_to(v, t)
    }

    fn encode(&self) -> (r: JsonValue) {
        self.encode_doc()
    }

    fn decode(v: &JsonValue) -> (r: Result<Self, DecodeError>) {
        Amount::decode_doc(v)
    }

    proof fn lemma_round_trip(t: Self, u: Self) {
        lemma_amount_round_trip(t, u);
    }
}

impl WireCodec for Breakdown {
    open spec fn encoding(self) -> Jv {
        Jv::Object(breakdown_wire_fields(self))
    }

    open spec fn can_decode(v: Jv) -> bool {
        breakdown_can_decode(v)
    }

    open spec fn decodes_to(v: Jv, t: Self) -> bool {
        breakdown_decodes_to(v, t)
    }

    fn encode(&self) -> (r: JsonValue) {
        self.encode_doc()
    }

    fn decode(v: &JsonValue) -> (r: Result<Self, DecodeError>) {
        Breakdown::decode_doc(v)
    }

    proof fn lemma_round_trip(t: Self, u: Self) {
        lemma_breakdown_round_trip(t, u);
    }
}

impl WireCodec for AggregatedDiscount {
    open spec fn encoding(self) -> Jv {
        Jv::Object(agg_discount_wire_fields(self))
    }

    open spec fn can_decode(v: Jv) -> bool {
        agg_discount_can_decode(v)
    }

    open spec fn decodes_to(v: Jv, t: Self) -> bool {
        agg_discount_decodes_to(v, t)
    }

    fn encode(&self) -> (r: JsonValue) {
        self.encode_doc()
    }

    fn decode(v: &JsonValue) -> (r: Result<Self, DecodeError>) {
        AggregatedDiscount::decode_doc(v)
    }

    proof fn lemma_round_trip(t: Self, u: Self) {
        lemma_agg_discount_round_trip(t, u);
    }
}

impl WireCodec for Discount {
    open spec fn encoding(self) -> Jv {
        Jv::Object(discount_wire_fields(self))
    }

    open spec fn can_decode(v: Jv) -> bool {
        discount_can_decode(v)
    }

    open spec fn decodes_to(v: Jv, t: Self) -> bool {
        discount_decodes_to(v, t)
    }

    fn encode(&self) -> (r: JsonValue) {
        self.encode_doc()
    }

    fn decode(v: &JsonValue) -> (r: Result<Self, DecodeError>) {
        Discount::decode_doc(v)
    }

    proof fn lemma_round_trip(t: Self, u: Self) {
        lemma_discount_round_trip(t, u);
    }
}

/// The payment type in an invoicing flow.
#[derive(Debug, Clone, Copy, PartialEq, Eq)]
pub enum PaymentType {
    /// The payment was made through PayPal.
    Paypal,
    /// The payment was an external cash or check payment.
    External,
}

impl PaymentType {
    /// The wire token of this value.
    pub open spec fn spec_token(self) -> Seq<char> {
        match self {
            PaymentType::Paypal => "PAYPAL"@,
            PaymentType::External => "EXTERNAL"@,
        }
    }

    /// Whether `s` is one of the documented tokens.
    pub open spec fn spec_is_token(s: Seq<char>) -> bool {
        s == "PAYPAL"@ || s == "EXTERNAL"@
    }
}

impl WireCodec for PaymentType {
    open spec fn encoding(self) -> Jv {
        Jv::Str(self.spec_token())
    }

    open spec fn can_decode(v: Jv) -> bool {
        match v {
            Jv::Str(s) => PaymentType::spec_is_token(s),
            _ => false,
        }
    }

    open spec fn decodes_to(v: Jv, t: Self) -> bool {
        v == Jv::Str(t.spec_token())
    }

    fn encode(&self) -> (r: JsonValue) {
        let tok = match self {
            PaymentType::Paypal => "PAYPAL",
            PaymentType::External => "EXTERNAL",
        };
        JsonValue::Str(tok.to_owned())
    }

    fn decode(v: &JsonValue) -> (r: Result<Self, DecodeError>)
        ensures
            match r {
                Err(DecodeError::UnknownToken(s)) => v@ == Jv::Str(s@)
                    && !PaymentType::spec_is_token(s@),
                Err(DecodeError::WrongType(_)) => !(v@ is Str),
                Err(DecodeError::MissingField(_)) => false,
                Ok(_) => true,
            },
    {
        match v {
            JsonValue::Str(s) => {
                let c = s.as_str();
                if str_eq(c, "PAYPAL") {
                    Ok(PaymentType::Paypal)
                } else if str_eq(c, "EXTERNAL") {
                    Ok(PaymentType::External)
                } else {
                    Err(DecodeError::UnknownToken(s.clone()))
                }
            },
            _ => Err(DecodeError::WrongType("string".to_owned())),
        }
    }

    proof fn lemma_round_trip(t: Self, u: Self) {
    }
}

/// The payment mode or method through which the invoicer accepts a payment.
#[derive(Debug, Clone, Copy, PartialEq, Eq)]
pub enum PaymentMethod {
    /// Payment by bank transfer.
    BankTransfer,
    /// Payment in cash.
    Cash,
    /// Payment by check.
    Check,
    /// Payment by credit card.
    CreditCard,
    /// Payment by debit card.
    DebitCard,
    /// Payment through PayPal.
    Paypal,
    /// Payment by wire transfer.
    WireTransfer,
    /// Payment by another mode.
    Other,
}

impl PaymentMethod {
    /// The wire token of this value.
    pub open spec fn spec_token(self) -> Seq<char> {
        match self {
            PaymentMethod::BankTransfer => "BANK_TRANSFER"@,
            PaymentMethod::Cash => "CASH"@,
            PaymentMethod::Check => "CHECK"@,
            PaymentMethod::CreditCard => "CREDIT_CARD"@,
            PaymentMethod::DebitCard => "DEBIT_CARD"@,
            PaymentMethod::Paypal => "PAYPAL"@,
            PaymentMethod::WireTransfer => "WIRE_TRANSFER"@,
            PaymentMethod::Other => "OTHER"@,
        }
    }

    /// Whether `s` is one of the documented tokens.
    pub open spec fn spec_is_token(s: Seq<char>) -> bool {
        ||| s == "BANK_TRANSFER"@
        ||| s == "CASH"@
        ||| s == "CHECK"@
        ||| s == "CREDIT_CARD"@
        ||| s == "DEBIT_CARD"@
        ||| s == "PAYPAL"@
        ||| s == "WIRE_TRANSFER"@
        ||| s == "OTHER"@
    }
}

impl WireCodec for PaymentMethod {
    open spec fn encoding(self) -> Jv {
        Jv::Str(self.spec_token())
    }

    open spec fn can_decode(v: Jv) -> bool {
        match v {
            Jv::Str(s) => PaymentMethod::spec_is_token(s),
            _ => false,
        }
    }

    open spec fn decodes_to(v: Jv, t: Self) -> bool {
        v == Jv::Str(t.spec_token())
    }

    fn encode(&self) -> (r: JsonValue) {
        let tok = match self {
            PaymentMethod::BankTransfer => "BANK_TRANSFER",
            PaymentMethod::Cash => "CASH",
            PaymentMethod::Check => "CHECK",
            PaymentMethod::CreditCard => "CREDIT_CARD",
            PaymentMethod::DebitCard => "DEBIT_CARD",
            PaymentMethod::Paypal => "PAYPAL",
            PaymentMethod::WireTransfer => "WIRE_TRANSFER",
            PaymentMethod::Other => "OTHER",
        };
        JsonValue::Str(tok.to_owned())
    }

    fn decode(v: &JsonValue) -> (r: Result<Self, DecodeError>)
        ensures
            match r {
                Err(DecodeError::UnknownToken(s)) => v@ == Jv::Str(s@)
                    && !PaymentMethod::spec_is_token(s@),
                Err(DecodeError::WrongType(_)) => !(v@ is Str),
                Err(DecodeError::MissingField(_)) => false,
                Ok(_) => true,
            },
    {
        match v {
            JsonValue::Str(s) => {
                let c = s.as_str();
                if str_eq(c, "BANK_TRANSFER") {
                    Ok(PaymentMethod::BankTransfer)
                } else if str_eq(c, "CASH") {
                    Ok(PaymentMethod::Cash)
                } else if str_eq(c, "CHECK") {
                    Ok(PaymentMethod::Check)
                } else if str_eq(c, "CREDIT_CARD") {
                    Ok(PaymentMethod::CreditCard)
                } else if str_eq(c, "DEBIT_CARD") {
                    Ok(PaymentMethod::DebitCard)
                } else if str_eq(c, "PAYPAL") {
                    Ok(PaymentMethod::Paypal)
                } else if str_eq(c, "WIRE_TRANSFER") {
                    Ok(PaymentMethod::WireTransfer)
                } else if str_eq(c, "OTHER") {
                    Ok(PaymentMethod::Other)
                } else {
                    Err(DecodeError::UnknownToken(s.clone()))
                }
            },
            _ => Err(DecodeError::WrongType("string".to_owned())),
        }
    }

    proof fn lemma_round_trip(t: Self, u: Self) {
    }
}

/// A payment registered against an invoice.
#[derive(Debug, Clone, PartialEq)]
pub struct PaymentDetail {
    /// The payment type: PayPal, or an external cash or check payment (its
    /// wire name is `type`).
    pub payment_type: Option<PaymentType>,
    /// The ID for a PayPal payment transaction.
    pub payment_id: Option<String>,
    /// When the invoice was paid, as an ISO-8601 timestamp.
    pub payment_date: Option<String>,
    /// The payment mode or method.
    pub method: PaymentMethod,
    /// A note associated with an external cash or check payment.
    pub note: Option<String>,
    /// The payment amount to record against the invoice.
    pub amount: Option<Money>,
    /// The recipient's shipping information.
    pub shipping_info: Option<ContactInformation>,
}

impl PaymentDetail {
    /// The fields of this value's wire document, in emission order.
    pub open spec fn wire_fields(self) -> Seq<(Seq<char>, Jv)> {
        opt_entry("type"@, self.payment_type) + opt_entry("payment_id"@, self.payment_id) + opt_entry("payment_date"@, self.payment_date) + field_entry("method"@, self.method.encoding()) + opt_entry("note"@, self.note) + opt_entry("amount"@, self.amount) + opt_entry("shipping_info"@, self.shipping_info)
    }
}

impl WireCodec for PaymentDetail {
    open spec fn encoding(self) -> Jv {
        Jv::Object(self.wire_fields())
    }

    open spec fn can_decode(v: Jv) -> bool {
        match v {
            Jv::Object(fs) => {
                &&& opt_ok::<PaymentType>(fs, "type"@)
                &&& opt_ok::<String>(fs, "payment_id"@)
                &&& opt_ok::<String>(fs, "payment_date"@)
                &&& req_ok::<PaymentMethod>(fs, "method"@)
                &&& opt_ok::<String>(fs, "note"@)
                &&& opt_ok::<Money>(fs, "amount"@)
                &&& opt_ok::<ContactInformation>(fs, "shipping_info"@)
            },
            _ => false,
        }
    }

    open spec fn decodes_to(v: Jv, t: Self) -> bool {
        match v {
            Jv::Object(fs) => {
                &&& opt_rel::<PaymentType>(fs, "type"@, t.payment_type)
                &&& opt_rel::<String>(fs, "payment_id"@, t.payment_id)
                &&& opt_rel::<String>(fs, "payment_date"@, t.payment_date)
                &&& req_rel::<PaymentMethod>(fs, "method"@, t.method)
                &&& opt_rel::<String>(fs, "note"@, t.note)
                &&& opt_rel::<Money>(fs, "amount"@, t.amount)
                &&& opt_rel::<ContactInformation>(fs, "shipping_info"@, t.shipping_info)
            },
            _ => false,
        }
    }

    fn encode(&self) -> (r: JsonValue) {
        let mut fs: Vec<(String, JsonValue)> = Vec::new();
        push_opt(&mut fs, "type", &self.payment_type);
        push_opt(&mut fs, "payment_id", &self.payment_id);
        push_opt(&mut fs, "payment_date", &self.payment_date);
        push_req(&mut fs, "method", &self.method);
        push_opt(&mut fs, "note", &self.note);
        push_opt(&mut fs, "amount", &self.amount);
        push_opt(&mut fs, "shipping_info", &self.shipping_info);
        proof {
            crate::json::lemma_concat_left_empty(opt_entry("type"@, (*self).payment_type));
            assert(jv_of_fields(fs@) == (*self).wire_fields());
        }
        JsonValue::Object(fs)
    }

    fn decode(v: &JsonValue) -> (r: Result<Self, DecodeError>) {
        match v {
            JsonValue::Object(fields) => {
                let payment_type = match get_opt::<PaymentType>(fields, "type") {
                    Ok(x) => x,
                    Err(e) => return Err(e),
                };
                let payment_id = match get_opt::<String>(fields, "payment_id") {
                    Ok(x) => x,
                    Err(e) => return Err(e),
                };
                let payment_date = match get_opt::<String>(fields, "payment_date") {
                    Ok(x) => x,
                    Err(e) => return Err(e),
                };
                let method = match get_req::<PaymentMethod>(fields, "method") {
                    Ok(x) => x,
                    Err(e) => return Err(e),
                };
                let note = match get_opt::<String>(fields, "note") {
                    Ok(x) => x,
                    Err(e) => return Err(e),
                };
                let amount = match get_opt::<Money>(fields, "amount") {
                    Ok(x) => x,
                    Err(e) => return Err(e),
                };
                let shipping_info = match get_opt::<ContactInformation>(fields, "shipping_info") {
                    Ok(x) => x,
                    Err(e) => return Err(e),
                };
                Ok(PaymentDetail { payment_type, payment_id, payment_date, method, note, amount, shipping_info })
            },
            _ => Err(DecodeError::WrongType("object".to_owned())),
        }
    }

    #[verifier::rlimit(100)]
    proof fn lemma_round_trip(t: Self, u: Self) {
        reveal_strlit("type");
        reveal_strlit("payment_id");
        reveal_strlit("payment_date");
        reveal_strlit("method");
        reveal_strlit("note");
        reveal_strlit("amount");
        reveal_strlit("shipping_info");
        assert("type"@.len() == 4);
        assert("payment_id"@.len() == 10);
        assert("payment_date"@.len() == 12);
        assert("method"@.len() == 6);
        assert("note"@.len() == 4);
        assert("amount"@.len() == 6);
        assert("shipping_info"@.len() == 13);
        assert("type"@[0] == 't');
        assert("note"@[0] == 'n');
        assert("method"@[0] == 'm');
        assert("amount"@[0] == 'a');
        if let Some(x) = t.payment_type {
            PaymentType::lemma_round_trip(x, x);
        }
        PaymentMethod::lemma_round_trip(t.method, u.method);
        if let Some(x) = t.amount {
            Money::lemma_round_trip(x, x);
        }
        if let Some(x) = t.shipping_info {
            ContactInformation::lemma_round_trip(x, x);
        }
        if Self::decodes_to(t.encoding(), u) {
            if let (Some(x), Some(y)) = (t.payment_type, u.payment_type) {
                PaymentType::lemma_round_trip(x, y);
            }
            if let (Some(x), Some(y)) = (t.amount, u.amount) {
                Money::lemma_round_trip(x, y);
            }
            if let (Some(x), Some(y)) = (t.shipping_info, u.shipping_info) {
                ContactInformation::lemma_round_trip(x, y);
            }
            assert(opt_entry("type"@, u.payment_type) == opt_entry("type"@, t.payment_type));
            assert(opt_entry("payment_id"@, u.payment_id) == opt_entry("payment_id"@, t.payment_id));
            assert(opt_entry("payment_date"@, u.payment_date) == opt_entry("payment_date"@, t.payment_date));
            assert(field_entry("method"@, u.method.encoding()) == field_entry("method"@, t.method.encoding()));
            assert(opt_entry("note"@, u.note) == opt_entry("note"@, t.note));
            assert(opt_entry("amount"@, u.amount) == opt_entry("amount"@, t.amount));
            assert(opt_entry("shipping_info"@, u.shipping_info) == opt_entry("shipping_info"@, t.shipping_info));
            assert(u.wire_fields() == t.wire_fields());
        }
    }
}

/// The payments registered against an invoice.
#[derive(Debug, Clone, PartialEq)]
pub struct Payments {
    /// The aggregated payment amounts against this invoice; read only.
    pub paid_amount: Option<Money>,
    /// The payment details for the invoice; read only.
    pub transactions: Option<Vec<PaymentDetail>>,
}

impl Payments {
    /// The fields of this value's wire document, in emission order.
    pub open spec fn wire_fields(self) -> Seq<(Seq<char>, Jv)> {
        opt_entry("paid_amount"@, self.paid_amount) + opt_entry("transactions"@, self.transactions)
    }
}

impl WireCodec for Payments {
    open spec fn encoding(self) -> Jv {
        Jv::Object(self.wire_fields())
    }

    open spec fn can_decode(v: Jv) -> bool {
        match v {
            Jv::Object(fs) => {
                &&& opt_ok::<Money>(fs, "paid_amount"@)
                &&& opt_ok::<Vec<PaymentDetail>>(fs, "transactions"@)
            },
            _ => false,
        }
    }

    open spec fn decodes_to(v: Jv, t: Self) -> bool {
        match v {
            Jv::Object(fs) => {
                &&& opt_rel::<Money>(fs, "paid_amount"@, t.paid_amount)
                &&& opt_rel::<Vec<PaymentDetail>>(fs, "transactions"@, t.transactions)
            },
            _ => false,
        }
    }

    fn encode(&self) -> (r: JsonValue) {
        let mut fs: Vec<(String, JsonValue)> = Vec::new();
        if let Some(x) = &self.paid_amount {
            fs.push(("paid_amount".to_owned(), x.encode()));
        }
        if let Some(x) = &self.transactions {
            fs.push(("transactions".to_owned(), x.encode()));
        }
        proof {
            crate::json::lemma_jv_of_fields(fs@);
            assert(jv_of_fields(fs@) =~= (*self).wire_fields());
        }
        JsonValue::Object(fs)
    }

    fn decode(v: &JsonValue) -> (r: Result<Self, DecodeError>) {
        match v {
            JsonValue::Object(fields) => {
                let paid_amount = match get_opt::<Money>(fields, "paid_amount") {
                    Ok(x) => x,
                    Err(e) => return Err(e),
                };
                let transactions = match get_opt::<Vec<PaymentDetail>>(fields, "transactions") {
                    Ok(x) => x,
                    Err(e) => return Err(e),
                };
                Ok(Payments { paid_amount, transactions })
            },
            _ => Err(DecodeError::WrongType("object".to_owned())),
        }
    }

    proof fn lemma_round_trip(t: Self, u: Self) {
        reveal_strlit("paid_amount");
        reveal_strlit("transactions");
        assert("paid_amount"@.len() == 11);
        assert("transactions"@.len() == 12);
        if let Some(x) = t.paid_amount {
            Money::lemma_round_trip(x, x);
        }
        if let Some(x) = t.transactions {
            <Vec<PaymentDetail> as WireCodec>::lemma_round_trip(x, x);
        }
        if Self::decodes_to(t.encoding(), u) {
            if let (Some(x), Some(y)) = (t.paid_amount, u.paid_amount) {
                Money::lemma_round_trip(x, y);
            }
            if let (Some(x), Some(y)) = (t.transactions, u.transactions) {
                <Vec<PaymentDetail> as WireCodec>::lemma_round_trip(x, y);
            }
            assert(u.wire_fields() =~= t.wire_fields());
        }
    }
}

/// A refund registered against an invoice.
#[derive(Debug, Clone, PartialEq)]
pub struct RefundDetail {
    /// The refund type: paid through PayPal or externally (its wire name is
    /// `type`).
    pub refund_type: Option<PaymentType>,
    /// The ID for a PayPal payment transaction.
    pub refund_id: Option<String>,
    /// When the invoice was refunded, as an ISO-8601 timestamp.
    pub refund_date: Option<String>,
    /// The amount to record as refunded.
    pub amount: Option<Money>,
    /// The payment mode or method.
    pub method: PaymentMethod,
}

impl RefundDetail {
    /// The fields of this value's wire document, in emission order.
    pub open spec fn wire_fields(self) -> Seq<(Seq<char>, Jv)> {
        opt_entry("type"@, self.refund_type) + opt_entry("refund_id"@, self.refund_id) + opt_entry("refund_date"@, self.refund_date) + opt_entry("amount"@, self.amount) + field_entry("method"@, self.method.encoding())
    }
}

impl WireCodec for RefundDetail {
    open spec fn encoding(self) -> Jv {
        Jv::Object(self.wire_fields())
    }

    open spec fn can_decode(v: Jv) -> bool {
        match v {
            Jv::Object(fs) => {
                &&& opt_ok::<PaymentType>(fs, "type"@)
                &&& opt_ok::<String>(fs, "refund_id"@)
                &&& opt_ok::<String>(fs, "refund_date"@)
                &&& opt_ok::<Money>(fs, "amount"@)
                &&& req_ok::<PaymentMethod>(fs, "method"@)
            },
            _ => false,
        }
    }

    open spec fn decodes_to(v: Jv, t: Self) -> bool {
        match v {
            Jv::Object(fs) => {
                &&& opt_rel::<PaymentType>(fs, "type"@, t.refund_type)
                &&& opt_rel::<String>(fs, "refund_id"@, t.refund_id)
                &&& opt_rel::<String>(fs, "refund_date"@, t.refund_date)
                &&& opt_rel::<Money>(fs, "amount"@, t.amount)
                &&& req_rel::<PaymentMethod>(fs, "method"@, t.method)
            },
            _ => false,
        }
    }

    fn encode(&self) -> (r: JsonValue) {
        let mut fs: Vec<(String, JsonValue)> = Vec::new();
        if let Some(x) = &self.refund_type {
            fs.push(("type".to_owned(), x.encode()));
        }
        if let Some(x) = &self.refund_id {
            fs.push(("refund_id".to_owned(), x.encode()));
        }
        if let Some(x) = &self.refund_date {
            fs.push(("refund_date".to_owned(), x.encode()));
        }
        if let Some(x) = &self.amount {
            fs.push(("amount".to_owned(), x.encode()));
        }
        fs.push(("method".to_owned(), self.method.encode()));
        proof {
            crate::json::lemma_jv_of_fields(fs@);
            assert(jv_of_fields(fs@) =~= (*self).wire_fields());
        }
        JsonValue::Object(fs)
    }

    fn decode(v: &JsonValue) -> (r: Result<Self, DecodeError>) {
        match v {
            JsonValue::Object(fields) => {
                let refund_type = match get_opt::<PaymentType>(fields, "type") {
                    Ok(x) => x,
                    Err(e) => return Err(e),
                };
                let refund_id = match get_opt::<String>(fields, "refund_id") {
                    Ok(x) => x,
                    Err(e) => return Err(e),
                };
                let refund_date = match get_opt::<String>(fields, "refund_date") {
                    Ok(x) => x,
                    Err(e) => return Err(e),
                };
                let amount = match get_opt::<Money>(fields, "amount") {
                    Ok(x) => x,
                    Err(e) => return Err(e),
                };
                let method = match get_req::<PaymentMethod>(fields, "method") {
                    Ok(x) => x,
                    Err(e) => return Err(e),
                };
                Ok(RefundDetail { refund_type, refund_id, refund_date, amount, method })
            },
            _ => Err(DecodeError::WrongType("object".to_owned())),
        }
    }

    proof fn lemma_round_trip(t: Self, u: Self) {
        reveal_strlit("type");
        reveal_strlit("refund_id");
        reveal_strlit("refund_date");
        reveal_strlit("amount");
        reveal_strlit("method");
        assert("type"@.len() == 4);
        assert("refund_id"@.len() == 9);
        assert("refund_date"@.len() == 11);
        assert("amount"@.len() == 6);
        assert("method"@.len() == 6);
        assert("amount"@[0] == 'a');
        assert("method"@[0] == 'm');
        if let Some(x) = t.refund_type {
            PaymentType::lemma_round_trip(x, x);
        }
        if let Some(x) = t.amount {
            Money::lemma_round_trip(x, x);
        }
        PaymentMethod::lemma_round_trip(t.method, u.method);
        if Self::decodes_to(t.encoding(), u) {
            if let (Some(x), Some(y)) = (t.refund_type, u.refund_type) {
                PaymentType::lemma_round_trip(x, y);
            }
            if let (Some(x), Some(y)) = (t.amount, u.amount) {
                Money::lemma_round_trip(x, y);
            }
            assert(u.wire_fields() =~= t.wire_fields());
        }
    }
}

/// The refunds registered against an invoice.
#[derive(Debug, Clone, PartialEq)]
pub struct Refunds {
    /// The aggregated refund amounts; read only.
    pub refund_amount: Option<Money>,
    /// The refund details for the invoice; read only.
    pub transactions: Option<Vec<RefundDetail>>,
}

impl Refunds {
    /// The fields of this value's wire document, in emission order.
    pub open spec fn wire_fields(self) -> Seq<(Seq<char>, Jv)> {
        opt_entry("refund_amount"@, self.refund_amount) + opt_entry("transactions"@, self.transactions)
    }
}

impl WireCodec for Refunds {
    open spec fn encoding(self) -> Jv {
        Jv::Object(self.wire_fields())
    }

    open spec fn can_decode(v: Jv) -> bool {
        match v {
            Jv::Object(fs) => {
                &&& opt_ok::<Money>(fs, "refund_amount"@)
                &&& opt_ok::<Vec<RefundDetail>>(fs, "transactions"@)
            },
            _ => false,
        }
    }

    open spec fn decodes_to(v: Jv, t: Self) -> bool {
        match v {
            Jv::Object(fs) => {
                &&& opt_rel::<Money>(fs, "refund_amount"@, t.refund_amount)
                &&& opt_rel::<Vec<RefundDetail>>(fs, "transactions"@, t.transactions)
            },
            _ => false,
        }
    }

    fn encode(&self) -> (r: JsonValue) {
        let mut fs: Vec<(String, JsonValue)> = Vec::new();
        if let Some(x) = &self.refund_amount {
            fs.push(("refund_amount".to_owned(), x.encode()));
        }
        if let Some(x) = &self.transactions {
            fs.push(("transactions".to_owned(), x.encode()));
        }
        proof {
            crate::json::lemma_jv_of_fields(fs@);
            assert(jv_of_fields(fs@) =~= (*self).wire_fields());
        }
        JsonValue::Object(fs)
    }

    fn decode(v: &JsonValue) -> (r: Result<Self, DecodeError>) {
        match v {
            JsonValue::Object(fields) => {
                let refund_amount = match get_opt::<Money>(fields, "refund_amount") {
                    Ok(x) => x,
                    Err(e) => return Err(e),
                };
                let transactions = match get_opt::<Vec<RefundDetail>>(fields, "transactions") {
                    Ok(x) => x,
                    Err(e) => return Err(e),
                };
                Ok(Refunds { refund_amount, transactions })
            },
            _ => Err(DecodeError::WrongType("object".to_owned())),
        }
    }

    proof fn lemma_round_trip(t: Self, u: Self) {
        reveal_strlit("refund_amount");
        reveal_strlit("transactions");
        assert("refund_amount"@.len() == 13);
        assert("transactions"@.len() == 12);
        if let Some(x) = t.refund_amount {
            Money::lemma_round_trip(x, x);
        }
        if let Some(x) = t.transactions {
            <Vec<RefundDetail> as WireCodec>::lemma_round_trip(x, x);
        }
        if Self::decodes_to(t.encoding(), u) {
            if let (Some(x), Some(y)) = (t.refund_amount, u.refund_amount) {
                Money::lemma_round_trip(x, y);
            }
            if let (Some(x), Some(y)) = (t.transactions, u.transactions) {
                <Vec<RefundDetail> as WireCodec>::lemma_round_trip(x, y);
            }
            assert(u.wire_fields() =~= t.wire_fields());
        }
    }
}

/// The status of an invoice.
#[derive(Debug, Clone, Copy, PartialEq, Eq)]
pub enum Status {
    /// The invoice is in a draft state, not yet sent to the payer.
    Draft,
    /// The invoice has been sent to the payer.
    Sent,
    /// The invoice is scheduled on a future date, not yet sent.
    Scheduled,
    /// The payer has paid for the invoice.
    Paid,
    /// The invoice is marked as paid by the invoicer.
    MarkedAsPaid,
    /// The invoice has been cancelled by the invoicer.
    Cancelled,
    /// The invoice has been refunded by the invoicer.
    Refunded,
    /// The payer has partially paid for the invoice.
    PartiallyPaid,
    /// The invoice has been partially refunded by the invoicer.
    PartiallyRefunded,
    /// The invoice is marked as refunded by the invoicer.
    MarkedAsRefunded,
    /// The invoicer is yet to receive the payment.
    Unpaid,
    /// The payment is under pending review.
    PaymentPending,
}

impl Status {
    /// The wire token of this status.
    pub open spec fn spec_token(self) -> Seq<char> {
        match self {
            Status::Draft => "DRAFT"@,
            Status::Sent => "SENT"@,
            Status::Scheduled => "SCHEDULED"@,
            Status::Paid => "PAID"@,
            Status::MarkedAsPaid => "MARKED_AS_PAID"@,
            Status::Cancelled => "CANCELLED"@,
            Status::Refunded => "REFUNDED"@,
            Status::PartiallyPaid => "PARTIALLY_PAID"@,
            Status::PartiallyRefunded => "PARTIALLY_REFUNDED"@,
            Status::MarkedAsRefunded => "MARKED_AS_REFUNDED"@,
            Status::Unpaid => "UNPAID"@,
            Status::PaymentPending => "PAYMENT_PENDING"@,
        }
    }

    /// Whether `s` is one of the documented status tokens.
    pub open spec fn spec_is_token(s: Seq<char>) -> bool {
        ||| s == "DRAFT"@
        ||| s == "SENT"@
        ||| s == "SCHEDULED"@
        ||| s == "PAID"@
        ||| s == "MARKED_AS_PAID"@
        ||| s == "CANCELLED"@
        ||| s == "REFUNDED"@
        ||| s == "PARTIALLY_PAID"@
        ||| s == "PARTIALLY_REFUNDED"@
        ||| s == "MARKED_AS_REFUNDED"@
        ||| s == "UNPAID"@
        ||| s == "PAYMENT_PENDING"@
    }
}

impl WireCodec for Status {
    open spec fn encoding(self) -> Jv {
        Jv::Str(self.spec_token())
    }

    open spec fn can_decode(v: Jv) -> bool {
        match v {
            Jv::Str(s) => Status::spec_is_token(s),
            _ => false,
        }
    }

    open spec fn decodes_to(v: Jv, t: Self) -> bool {
        v == Jv::Str(t.spec_token())
    }

    fn encode(&self) -> (r: JsonValue) {
        let tok = match self {
            Status::Draft => "DRAFT",
            Status::Sent => "SENT",
            Status::Scheduled => "SCHEDULED",
            Status::Paid => "PAID",
            Status::MarkedAsPaid => "MARKED_AS_PAID",
            Status::Cancelled => "CANCELLED",
            Status::Refunded => "REFUNDED",
            Status::PartiallyPaid => "PARTIALLY_PAID",
            Status::PartiallyRefunded => "PARTIALLY_REFUNDED",
            Status::MarkedAsRefunded => "MARKED_AS_REFUNDED",
            Status::Unpaid => "UNPAID",
            Status::PaymentPending => "PAYMENT_PENDING",
        };
        JsonValue::Str(tok.to_owned())
    }

    fn decode(v: &JsonValue) -> (r: Result<Self, DecodeError>)
        ensures
            match r {
                Err(DecodeError::UnknownToken(s)) => v@ == Jv::Str(s@)
                    && !Status::spec_is_token(s@),
                Err(DecodeError::WrongType(_)) => !(v@ is Str),
                Err(DecodeError::MissingField(_)) => false,
                Ok(_) => true,
            },
    {
        match v {
            JsonValue::Str(s) => {
                let c = s.as_str();
                if str_eq(c, "DRAFT") {
                    Ok(Status::Draft)
                } else if str_eq(c, "SENT") {
                    Ok(Status::Sent)
                } else if str_eq(c, "SCHEDULED") {
                    Ok(Status::Scheduled)
                } else if str_eq(c, "PAID") {
                    Ok(Status::Paid)
                } else if str_eq(c, "MARKED_AS_PAID") {
                    Ok(Status::MarkedAsPaid)
                } else if str_eq(c, "CANCELLED") {
                    Ok(Status::Cancelled)
                } else if str_eq(c, "REFUNDED") {
                    Ok(Status::Refunded)
                } else if str_eq(c, "PARTIALLY_PAID") {
                    Ok(Status::PartiallyPaid)
                } else if str_eq(c, "PARTIALLY_REFUNDED") {
                    Ok(Status::PartiallyRefunded)
                } else if str_eq(c, "MARKED_AS_REFUNDED") {
                    Ok(Status::MarkedAsRefunded)
                } else if str_eq(c, "UNPAID") {
                    Ok(Status::Unpaid)
                } else if str_eq(c, "PAYMENT_PENDING") {
                    Ok(Status::PaymentPending)
                } else {
                    Err(DecodeError::UnknownToken(s.clone()))
                }
            },
            _ => Err(DecodeError::WrongType("string".to_owned())),
        }
    }

    proof fn lemma_round_trip(t: Self, u: Self) {
    }
}

/// An invoice payload, used when creating an invoice.
#[derive(Debug, PartialEq)]
pub struct InvoicePayload {
    /// The details of the invoice.
    pub detail: InvoiceDetail,
    /// The invoicer information.
    pub invoicer: Option<InvoicerInfo>,
    /// The billing and shipping information of the primary recipients.
    pub primary_recipient: Option<Vec<RecipientInfo>>,
    /// One or more CC: emails to which notifications are sent.
    pub additional_recipients: Option<Vec<String>>,
    /// The invoice line items.
    pub items: Vec<Item>,
    /// The invoice configuration.
    pub configuration: Option<Configuration>,
    /// The invoice amount summary.
    pub amount: Option<Amount>,
    /// The payments registered against the invoice.
    pub payments: Option<Payments>,
    /// The refunds registered against the invoice.
    pub refunds: Option<Refunds>,
}

impl InvoicePayload {
    /// The fields of this value's wire document, in emission order.
    pub open spec fn wire_fields(self) -> Seq<(Seq<char>, Jv)> {
        field_entry("detail"@, self.detail.encoding()) + opt_entry("invoicer"@, self.invoicer) + opt_entry("primary_recipient"@, self.primary_recipient) + opt_entry("additional_recipients"@, self.additional_recipients) + field_entry("items"@, self.items.encoding()) + opt_entry("configuration"@, self.configuration) + opt_entry("amount"@, self.amount) + opt_entry("payments"@, self.payments) + opt_entry("refunds"@, self.refunds)
    }

    /// Where the `detail` field stands in the wire document.
    proof fn lemma_lookup_detail(t: Self)
        ensures
            lookup(t.wire_fields(), "detail"@) == Some(t.detail.encoding()),
    {
        reveal_strlit("detail");
        reveal_strlit("invoicer");
        reveal_strlit("primary_recipient");
        reveal_strlit("additional_recipients");
        reveal_strlit("items");
        reveal_strlit("configuration");
        reveal_strlit("amount");
        reveal_strlit("payments");
        reveal_strlit("refunds");
        assert("detail"@.len() == 6);
        assert("invoicer"@.len() == 8);
        assert("primary_recipient"@.len() == 17);
        assert("additional_recipients"@.len() == 21);
        assert("items"@.len() == 5);
        assert("configuration"@.len() == 13);
        assert("amount"@.len() == 6);
        assert("payments"@.len() == 8);
        assert("refunds"@.len() == 7);
        assert("detail"@[0] == 'd');
        assert("amount"@[0] == 'a');
        assert("invoicer"@[0] == 'i');
        assert("payments"@[0] == 'p');
    }

    /// Where the `invoicer` field stands in the wire document.
    proof fn lemma_lookup_invoicer(t: Self)
        ensures
            lookup(t.wire_fields(), "invoicer"@) == (match t.invoicer {
                Some(x) => Some(x.encoding()),
                None => None::<Jv>,
            }),
    {
        reveal_strlit("detail");
        reveal_strlit("invoicer");
        reveal_strlit("primary_recipient");
        reveal_strlit("additional_recipients");
        reveal_strlit("items");
        reveal_strlit("configuration");
        reveal_strlit("amount");
        reveal_strlit("payments");
        reveal_strlit("refunds");
        assert("detail"@.len() == 6);
        assert("invoicer"@.len() == 8);
        assert("primary_recipient"@.len() == 17);
        assert("additional_recipients"@.len() == 21);
        assert("items"@.len() == 5);
        assert("configuration"@.len() == 13);
        assert("amount"@.len() == 6);
        assert("payments"@.len() == 8);
        assert("refunds"@.len() == 7);
        assert("detail"@[0] == 'd');
        assert("amount"@[0] == 'a');
        assert("invoicer"@[0] == 'i');
        assert("payments"@[0] == 'p');
    }

    /// Where the `primary_recipient` field stands in the wire document.
    proof fn lemma_lookup_primary_recipient(t: Self)
        ensures
            lookup(t.wire_fields(), "primary_recipient"@) == (match t.primary_recipient {
                Some(x) => Some(x.encoding()),
                None => None::<Jv>,
            }),
    {
        reveal_strlit("detail");
        reveal_strlit("invoicer");
        reveal_strlit("primary_recipient");
        reveal_strlit("additional_recipients");
        reveal_strlit("items");
        reveal_strlit("configuration");
        reveal_strlit("amount");
        reveal_strlit("payments");
        reveal_strlit("refunds");
        assert("detail"@.len() == 6);
        assert("invoicer"@.len() == 8);
        assert("primary_recipient"@.len() == 17);
        assert("additional_recipients"@.len() == 21);
        assert("items"@.len() == 5);
        assert("configuration"@.len() == 13);
        assert("amount"@.len() == 6);
        assert("payments"@.len() == 8);
        assert("refunds"@.len() == 7);
        assert("detail"@[0] == 'd');
        assert("amount"@[0] == 'a');
        assert("invoicer"@[0] == 'i');
        assert("payments"@[0] == 'p');
    }

    /// Where the `additional_recipients` field stands in the wire document.
    proof fn lemma_lookup_additional_recipients(t: Self)
        ensures
            lookup(t.wire_fields(), "additional_recipients"@) == (match t.additional_recipients {
                Some(x) => Some(x.encoding()),
                None => None::<Jv>,
            }),
    {
        reveal_strlit("detail");
        reveal_strlit("invoicer");
        reveal_strlit("primary_recipient");
        reveal_strlit("additional_recipients");
        reveal_strlit("items");
        reveal_strlit("configuration");
        reveal_strlit("amount");
        reveal_strlit("payments");
        reveal_strlit("refunds");
        assert("detail"@.len() == 6);
        assert("invoicer"@.len() == 8);
        assert("primary_recipient"@.len() == 17);
        assert("additional_recipients"@.len() == 21);
        assert("items"@.len() == 5);
        assert("configuration"@.len() == 13);
        assert("amount"@.len() == 6);
        assert("payments"@.len() == 8);
        assert("refunds"@.len() == 7);
        assert("detail"@[0] == 'd');
        assert("amount"@[0] == 'a');
        assert("invoicer"@[0] == 'i');
        assert("payments"@[0] == 'p');
    }

    /// Where the `items` field stands in the wire document.
    proof fn lemma_lookup_items(t: Self)
        ensures
            lookup(t.wire_fields(), "items"@) == Some(t.items.encoding()),
    {
        reveal_strlit("detail");
        reveal_strlit("invoicer");
        reveal_strlit("primary_recipient");
        reveal_strlit("additional_recipients");
        reveal_strlit("items");
        reveal_strlit("configuration");
        reveal_strlit("amount");
        reveal_strlit("payments");
        reveal_strlit("refunds");
        assert("detail"@.len() == 6);
        assert("invoicer"@.len() == 8);
        assert("primary_recipient"@.len() == 17);
        assert("additional_recipients"@.len() == 21);
        assert("items"@.len() == 5);
        assert("configuration"@.len() == 13);
        assert("amount"@.len() == 6);
        assert("payments"@.len() == 8);
        assert("refunds"@.len() == 7);
        assert("detail"@[0] == 'd');
        assert("amount"@[0] == 'a');
        assert("invoicer"@[0] == 'i');
        assert("payments"@[0] == 'p');
    }

    /// Where the `configuration` field stands in the wire document.
    proof fn lemma_lookup_configuration(t: Self)
        ensures
            lookup(t.wire_fields(), "configuration"@) == (match t.configuration {
                Some(x) => Some(x.encoding()),
                None => None::<Jv>,
            }),
    {
        reveal_strlit("detail");
        reveal_strlit("invoicer");
        reveal_strlit("primary_recipient");
        reveal_strlit("additional_recipients");
        reveal_strlit("items");
        reveal_strlit("configuration");
        reveal_strlit("amount");
        reveal_strlit("payments");
        reveal_strlit("refunds");
        assert("detail"@.len() == 6);
        assert("invoicer"@.len() == 8);
        assert("primary_recipient"@.len() == 17);
        assert("additional_recipients"@.len() == 21);
        assert("items"@.len() == 5);
        assert("configuration"@.len() == 13);
        assert("amount"@.len() == 6);
        assert("payments"@.len() == 8);
        assert("refunds"@.len() == 7);
        assert("detail"@[0] == 'd');
        assert("amount"@[0] == 'a');
        assert("invoicer"@[0] == 'i');
        assert("payments"@[0] == 'p');
    }

    /// Where the `amount` field stands in the wire document.
    proof fn lemma_lookup_amount(t: Self)
        ensures
            lookup(t.wire_fields(), "amount"@) == (match t.amount {
                Some(x) => Some(x.encoding()),
                None => None::<Jv>,
            }),
    {
        reveal_strlit("detail");
        reveal_strlit("invoicer");
        reveal_strlit("primary_recipient");
        reveal_strlit("additional_recipients");
        reveal_strlit("items");
        reveal_strlit("configuration");
        reveal_strlit("amount");
        reveal_strlit("payments");
        reveal_strlit("refunds");
        assert("detail"@.len() == 6);
        assert("invoicer"@.len() == 8);
        assert("primary_recipient"@.len() == 17);
        assert("additional_recipients"@.len() == 21);
        assert("items"@.len() == 5);
        assert("configuration"@.len() == 13);
        assert("amount"@.len() == 6);
        assert("payments"@.len() == 8);
        assert("refunds"@.len() == 7);
        assert("detail"@[0] == 'd');
        assert("amount"@[0] == 'a');
        assert("invoicer"@[0] == 'i');
        assert("payments"@[0] == 'p');
    }

    /// Where the `payments` field stands in the wire document.
    proof fn lemma_lookup_payments(t: Self)
        ensures
            lookup(t.wire_fields(), "payments"@) == (match t.payments {
                Some(x) => Some(x.encoding()),
                None => None::<Jv>,
            }),
    {
        reveal_strlit("detail");
        reveal_strlit("invoicer");
        reveal_strlit("primary_recipient");
        reveal_strlit("additional_recipients");
        reveal_strlit("items");
        reveal_strlit("configuration");
        reveal_strlit("amount");
        reveal_strlit("payments");
        reveal_strlit("refunds");
        assert("detail"@.len() == 6);
        assert("invoicer"@.len() == 8);
        assert("primary_recipient"@.len() == 17);
        assert("additional_recipients"@.len() == 21);
        assert("items"@.len() == 5);
        assert("configuration"@.len() == 13);
        assert("amount"@.len() == 6);
        assert("payments"@.len() == 8);
        assert("refunds"@.len() == 7);
        assert("detail"@[0] == 'd');
        assert("amount"@[0] == 'a');
        assert("invoicer"@[0] == 'i');
        assert("payments"@[0] == 'p');
    }

    /// Where the `refunds` field stands in the wire document.
    proof fn lemma_lookup_refunds(t: Self)
        ensures
            lookup(t.wire_fields(), "refunds"@) == (match t.refunds {
                Some(x) => Some(x.encoding()),
                None => None::<Jv>,
            }),
    {
        reveal_strlit("detail");
        reveal_strlit("invoicer");
        reveal_strlit("primary_recipient");
        reveal_strlit("additional_recipients");
        reveal_strlit("items");
        reveal_strlit("configuration");
        reveal_strlit("amount");
        reveal_strlit("payments");
        reveal_strlit("refunds");
        assert("detail"@.len() == 6);
        assert("invoicer"@.len() == 8);
        assert("primary_recipient"@.len() == 17);
        assert("additional_recipients"@.len() == 21);
        assert("items"@.len() == 5);
        assert("configuration"@.len() == 13);
        assert("amount"@.len() == 6);
        assert("payments"@.len() == 8);
        assert("refunds"@.len() == 7);
        assert("detail"@[0] == 'd');
        assert("amount"@[0] == 'a');
        assert("invoicer"@[0] == 'i');
        assert("payments"@[0] == 'p');
    }

    /// Two values that decode from the same document put the same
    /// document back on the wire.
    #[verifier::rlimit(100)]
    proof fn lemma_encoding_agrees(t: Self, u: Self)
        requires
            <InvoicePayload as WireCodec>::decodes_to(t.encoding(), u),
        ensures
            u.encoding() == t.encoding(),
    {
        Self::lemma_lookup_detail(t);
        Self::lemma_lookup_invoicer(t);
        Self::lemma_lookup_primary_recipient(t);
        Self::lemma_lookup_additional_recipients(t);
        Self::lemma_lookup_items(t);
        Self::lemma_lookup_configuration(t);
        Self::lemma_lookup_amount(t);
        Self::lemma_lookup_payments(t);
        Self::lemma_lookup_refunds(t);
        InvoiceDetail::lemma_round_trip(t.detail, u.detail);
        if let (Some(x), Some(y)) = (t.invoicer, u.invoicer) {
            InvoicerInfo::lemma_round_trip(x, y);
        }
        if let (Some(x), Some(y)) = (t.primary_recipient, u.primary_recipient) {
            <Vec<RecipientInfo> as WireCodec>::lemma_round_trip(x, y);
        }
        if let (Some(x), Some(y)) = (t.additional_recipients, u.additional_recipients) {
            <Vec<String> as WireCodec>::lemma_round_trip(x, y);
        }
        <Vec<Item> as WireCodec>::lemma_round_trip(t.items, u.items);
        if let (Some(x), Some(y)) = (t.configuration, u.configuration) {
            Configuration::lemma_round_trip(x, y);
        }
        if let (Some(x), Some(y)) = (t.amount, u.amount) {
            Amount::lemma_round_trip(x, y);
        }
        if let (Some(x), Some(y)) = (t.payments, u.payments) {
            Payments::lemma_round_trip(x, y);
        }
        if let (Some(x), Some(y)) = (t.refunds, u.refunds) {
            Refunds::lemma_round_trip(x, y);
        }
        assert(field_entry("detail"@, u.detail.encoding()) == field_entry("detail"@, t.detail.encoding()));
        assert(opt_entry("invoicer"@, u.invoicer) == opt_entry("invoicer"@, t.invoicer));
        assert(opt_entry("primary_recipient"@, u.primary_recipient) == opt_entry("primary_recipient"@, t.primary_recipient));
        assert(opt_entry("additional_recipients"@, u.additional_recipients) == opt_entry("additional_recipients"@, t.additional_recipients));
        assert(field_entry("items"@, u.items.encoding()) == field_entry("items"@, t.items.encoding()));
        assert(opt_entry("configuration"@, u.configuration) == opt_entry("configuration"@, t.configuration));
        assert(opt_entry("amount"@, u.amount) == opt_entry("amount"@, t.amount));
        assert(opt_entry("payments"@, u.payments) == opt_entry("payments"@, t.payments));
        assert(opt_entry("refunds"@, u.refunds) == opt_entry("refunds"@, t.refunds));
        assert(u.wire_fields() == t.wire_fields());
    }
}

impl WireCodec for InvoicePayload {
    open spec fn encoding(self) -> Jv {
        Jv::Object(self.wire_fields())
    }

    open spec fn can_decode(v: Jv) -> bool {
        match v {
            Jv::Object(fs) => {
                &&& req_ok::<InvoiceDetail>(fs, "detail"@)
                &&& opt_ok::<InvoicerInfo>(fs, "invoicer"@)
                &&& opt_ok::<Vec<RecipientInfo>>(fs, "primary_recipient"@)
                &&& opt_ok::<Vec<String>>(fs, "additional_recipients"@)
                &&& req_ok::<Vec<Item>>(fs, "items"@)
                &&& opt_ok::<Configuration>(fs, "configuration"@)
                &&& opt_ok::<Amount>(fs, "amount"@)
                &&& opt_ok::<Payments>(fs, "payments"@)
                &&& opt_ok::<Refunds>(fs, "refunds"@)
            },
            _ => false,
        }
    }

    open spec fn decodes_to(v: Jv, t: Self) -> bool {
        match v {
            Jv::Object(fs) => {
                &&& req_rel::<InvoiceDetail>(fs, "detail"@, t.detail)
                &&& opt_rel::<InvoicerInfo>(fs, "invoicer"@, t.invoicer)
                &&& opt_rel::<Vec<RecipientInfo>>(fs, "primary_recipient"@, t.primary_recipient)
                &&& opt_rel::<Vec<String>>(fs, "additional_recipients"@, t.additional_recipients)
                &&& req_rel::<Vec<Item>>(fs, "items"@, t.items)
                &&& opt_rel::<Configuration>(fs, "configuration"@, t.configuration)
                &&& opt_rel::<Amount>(fs, "amount"@, t.amount)
                &&& opt_rel::<Payments>(fs, "payments"@, t.payments)
                &&& opt_rel::<Refunds>(fs, "refunds"@, t.refunds)
            },
            _ => false,
        }
    }

    #[verifier::rlimit(100)]
    fn encode(&self) -> (r: JsonValue) {
        let mut fs: Vec<(String, JsonValue)> = Vec::new();
        push_req(&mut fs, "detail", &self.detail);
        push_opt(&mut fs, "invoicer", &self.invoicer);
        push_opt(&mut fs, "primary_recipient", &self.primary_recipient);
        push_opt(&mut fs, "additional_recipients", &self.additional_recipients);
        push_req(&mut fs, "items", &self.items);
        push_opt(&mut fs, "configuration", &self.configuration);
        push_opt(&mut fs, "amount", &self.amount);
        push_opt(&mut fs, "payments", &self.payments);
        push_opt(&mut fs, "refunds", &self.refunds);
        proof {
            crate::json::lemma_concat_left_empty(field_entry("detail"@, (*self).detail.encoding()));
            assert(jv_of_fields(fs@) == (*self).wire_fields());
        }
        JsonValue::Object(fs)
    }

    fn decode(v: &JsonValue) -> (r: Result<Self, DecodeError>) {
        match v {
            JsonValue::Object(fields) => {
                let detail = match get_req::<InvoiceDetail>(fields, "detail") {
                    Ok(x) => x,
                    Err(e) => return Err(e),
                };
                let invoicer = match get_opt::<InvoicerInfo>(fields, "invoicer") {
                    Ok(x) => x,
                    Err(e) => return Err(e),
                };
                let primary_recipient = match get_opt::<Vec<RecipientInfo>>(fields, "primary_recipient") {
                    Ok(x) => x,
                    Err(e) => return Err(e),
                };
                let additional_recipients = match get_opt::<Vec<String>>(fields, "additional_recipients") {
                    Ok(x) => x,
                    Err(e) => return Err(e),
                };
                let items = match get_req::<Vec<Item>>(fields, "items") {
                    Ok(x) => x,
                    Err(e) => return Err(e),
                };
                let configuration = match get_opt::<Configuration>(fields, "configuration") {
                    Ok(x) => x,
                    Err(e) => return Err(e),
                };
                let amount = match get_opt::<Amount>(fields, "amount") {
                    Ok(x) => x,
                    Err(e) => return Err(e),
                };
                let payments = match get_opt::<Payments>(fields, "payments") {
                    Ok(x) => x,
                    Err(e) => return Err(e),
                };
                let refunds = match get_opt::<Refunds>(fields, "refunds") {
                    Ok(x) => x,
                    Err(e) => return Err(e),
                };
                Ok(InvoicePayload { detail, invoicer, primary_recipient, additional_recipients, items, configuration, amount, payments, refunds })
            },
            _ => Err(DecodeError::WrongType("object".to_owned())),
        }
    }

    #[verifier::rlimit(100)]
    proof fn lemma_round_trip(t: Self, u: Self) {
        Self::lemma_lookup_detail(t);
        Self::lemma_lookup_invoicer(t);
        Self::lemma_lookup_primary_recipient(t);
        Self::lemma_lookup_additional_recipients(t);
        Self::lemma_lookup_items(t);
        Self::lemma_lookup_configuration(t);
        Self::lemma_lookup_amount(t);
        Self::lemma_lookup_payments(t);
        Self::lemma_lookup_refunds(t);
        InvoiceDetail::lemma_round_trip(t.detail, t.detail);
        if let Some(x) = t.invoicer {
            InvoicerInfo::lemma_round_trip(x, x);
        }
        if let Some(x) = t.primary_recipient {
            <Vec<RecipientInfo> as WireCodec>::lemma_round_trip(x, x);
        }
        if let Some(x) = t.additional_recipients {
            <Vec<String> as WireCodec>::lemma_round_trip(x, x);
        }
        <Vec<Item> as WireCodec>::lemma_round_trip(t.items, t.items);
        if let Some(x) = t.configuration {
            Configuration::lemma_round_trip(x, x);
        }
        if let Some(x) = t.amount {
            Amount::lemma_round_trip(x, x);
        }
        if let Some(x) = t.payments {
            Payments::lemma_round_trip(x, x);
        }
        if let Some(x) = t.refunds {
            Refunds::lemma_round_trip(x, x);
        }
        if Self::decodes_to(t.encoding(), u) {
            Self::lemma_encoding_agrees(t, u);
        }
    }
}

/// An invoice.
#[derive(Debug, PartialEq)]
pub struct Invoice {
    /// The ID of the invoice.
    pub id: String,
    /// The parent ID of the group invoice this invoice is related to.
    pub parent_id: Option<String>,
    /// The status of the invoice.
    pub status: Status,
    /// The details of the invoice.
    pub detail: InvoiceDetail,
    /// The invoicer information.
    pub invoicer: Option<InvoicerInfo>,
    /// The billing and shipping information of the primary recipients.
    pub primary_recipients: Option<Vec<RecipientInfo>>,
    /// One or more CC: emails to which notifications are sent.
    pub additional_recipients: Option<Vec<String>>,
    /// The invoice line items.
    pub items: Option<Vec<Item>>,
    /// The invoice configuration.
    pub configuration: Option<Configuration>,
    /// The invoice amount summary.
    pub amount: Amount,
    /// The balance amount outstanding after payments.
    pub due_amount: Option<Money>,
    /// The amount paid by the payer as gratuity to the invoicer.
    pub gratuity: Option<Money>,
    /// The payments registered against the invoice.
    pub payments: Option<Payments>,
    /// The refunds registered against the invoice.
    pub refunds: Option<Refunds>,
    /// Request-related HATEOAS links.
    pub links: Option<Vec<LinkDescription>>,
}

impl Invoice {
    /// The fields of this value's wire document, in emission order.
    pub open spec fn wire_fields(self) -> Seq<(Seq<char>, Jv)> {
        field_entry("id"@, self.id.encoding()) + opt_entry("parent_id"@, self.parent_id) + field_entry("status"@, self.status.encoding()) + field_entry("detail"@, self.detail.encoding()) + opt_entry("invoicer"@, self.invoicer) + opt_entry("primary_recipients"@, self.primary_recipients) + opt_entry("additional_recipients"@, self.additional_recipients) + opt_entry("items"@, self.items) + opt_entry("configuration"@, self.configuration) + field_entry("amount"@, self.amount.encoding()) + opt_entry("due_amount"@, self.due_amount) + opt_entry("gratuity"@, self.gratuity) + opt_entry("payments"@, self.payments) + opt_entry("refunds"@, self.refunds) + opt_entry("links"@, self.links)
    }

    /// Where the `id` field stands in the wire document.
    proof fn lemma_lookup_id(t: Self)
        ensures
            lookup(t.wire_fields(), "id"@) == Some(t.id.encoding()),
    {
        reveal_strlit("id");
        reveal_strlit("parent_id");
        reveal_strlit("status");
        reveal_strlit("detail");
        reveal_strlit("invoicer");
        reveal_strlit("primary_recipients");
        reveal_strlit("additional_recipients");
        reveal_strlit("items");
        reveal_strlit("configuration");
        reveal_strlit("amount");
        reveal_strlit("due_amount");
        reveal_strlit("gratuity");
        reveal_strlit("payments");
        reveal_strlit("refunds");
        reveal_strlit("links");
        assert("id"@.len() == 2);
        assert("parent_id"@.len() == 9);
        assert("status"@.len() == 6);
        assert("detail"@.len() == 6);
        assert("invoicer"@.len() == 8);
        assert("primary_recipients"@.len() == 18);
        assert("additional_recipients"@.len() == 21);
        assert("items"@.len() == 5);
        assert("configuration"@.len() == 13);
        assert("amount"@.len() == 6);
        assert("due_amount"@.len() == 10);
        assert("gratuity"@.len() == 8);
        assert("payments"@.len() == 8);
        assert("refunds"@.len() == 7);
        assert("links"@.len() == 5);
        assert("status"@[0] == 's');
        assert("detail"@[0] == 'd');
        assert("amount"@[0] == 'a');
        assert("invoicer"@[0] == 'i');
        assert("gratuity"@[0] == 'g');
        assert("payments"@[0] == 'p');
        assert("items"@[0] == 'i');
        assert("links"@[0] == 'l');
    }

    /// Where the `parent_id` field stands in the wire document.
    proof fn lemma_lookup_parent_id(t: Self)
        ensures
            lookup(t.wire_fields(), "parent_id"@) == (match t.parent_id {
                Some(x) => Some(x.encoding()),
                None => None::<Jv>,
            }),
    {
        reveal_strlit("id");
        reveal_strlit("parent_id");
        reveal_strlit("status");
        reveal_strlit("detail");
        reveal_strlit("invoicer");
        reveal_strlit("primary_recipients");
        reveal_strlit("additional_recipients");
        reveal_strlit("items");
        reveal_strlit("configuration");
        reveal_strlit("amount");
        reveal_strlit("due_amount");
        reveal_strlit("gratuity");
        reveal_strlit("payments");
        reveal_strlit("refunds");
        reveal_strlit("links");
        assert("id"@.len() == 2);
        assert("parent_id"@.len() == 9);
        assert("status"@.len() == 6);
        assert("detail"@.len() == 6);
        assert("invoicer"@.len() == 8);
        assert("primary_recipients"@.len() == 18);
        assert("additional_recipients"@.len() == 21);
        assert("items"@.len() == 5);
        assert("configuration"@.len() == 13);
        assert("amount"@.len() == 6);
        assert("due_amount"@.len() == 10);
        assert("gratuity"@.len() == 8);
        assert("payments"@.len() == 8);
        assert("refunds"@.len() == 7);
        assert("links"@.len() == 5);
        assert("status"@[0] == 's');
        assert("detail"@[0] == 'd');
        assert("amount"@[0] == 'a');
        assert("invoicer"@[0] == 'i');
        assert("gratuity"@[0] == 'g');
        assert("payments"@[0] == 'p');
        assert("items"@[0] == 'i');
        assert("links"@[0] == 'l');
    }

    /// Where the `status` field stands in the wire document.
    proof fn lemma_lookup_status(t: Self)
        ensures
            lookup(t.wire_fields(), "status"@) == Some(t.status.encoding()),
    {
        reveal_strlit("id");
        reveal_strlit("parent_id");
        reveal_strlit("status");
        reveal_strlit("detail");
        reveal_strlit("invoicer");
        reveal_strlit("primary_recipients");
        reveal_strlit("additional_recipients");
        reveal_strlit("items");
        reveal_strlit("configuration");
        reveal_strlit("amount");
        reveal_strlit("due_amount");
        reveal_strlit("gratuity");
        reveal_strlit("payments");
        reveal_strlit("refunds");
        reveal_strlit("links");
        assert("id"@.len() == 2);
        assert("parent_id"@.len() == 9);
        assert("status"@.len() == 6);
        assert("detail"@.len() == 6);
        assert("invoicer"@.len() == 8);
        assert("primary_recipients"@.len() == 18);
        assert("additional_recipients"@.len() == 21);
        assert("items"@.len() == 5);
        assert("configuration"@.len() == 13);
        assert("amount"@.len() == 6);
        assert("due_amount"@.len() == 10);
        assert("gratuity"@.len() == 8);
        assert("payments"@.len() == 8);
        assert("refunds"@.len() == 7);
        assert("links"@.len() == 5);
        assert("status"@[0] == 's');
        assert("detail"@[0] == 'd');
        assert("amount"@[0] == 'a');
        assert("invoicer"@[0] == 'i');
        assert("gratuity"@[0] == 'g');
        assert("payments"@[0] == 'p');
        assert("items"@[0] == 'i');
        assert("links"@[0] == 'l');
    }

    /// Where the `detail` field stands in the wire document.
    proof fn lemma_lookup_detail(t: Self)
        ensures
            lookup(t.wire_fields(), "detail"@) == Some(t.detail.encoding()),
    {
        reveal_strlit("id");
        reveal_strlit("parent_id");
        reveal_strlit("status");
        reveal_strlit("detail");
        reveal_strlit("invoicer");
        reveal_strlit("primary_recipients");
        reveal_strlit("additional_recipients");
        reveal_strlit("items");
        reveal_strlit("configuration");
        reveal_strlit("amount");
        reveal_strlit("due_amount");
        reveal_strlit("gratuity");
        reveal_strlit("payments");
        reveal_strlit("refunds");
        reveal_strlit("links");
        assert("id"@.len() == 2);
        assert("parent_id"@.len() == 9);
        assert("status"@.len() == 6);
        assert("detail"@.len() == 6);
        assert("invoicer"@.len() == 8);
        assert("primary_recipients"@.len() == 18);
        assert("additional_recipients"@.len() == 21);
        assert("items"@.len() == 5);
        assert("configuration"@.len() == 13);
        assert("amount"@.len() == 6);
        assert("due_amount"@.len() == 10);
        assert("gratuity"@.len() == 8);
        assert("payments"@.len() == 8);
        assert("refunds"@.len() == 7);
        assert("links"@.len() == 5);
        assert("status"@[0] == 's');
        assert("detail"@[0] == 'd');
        assert("amount"@[0] == 'a');
        assert("invoicer"@[0] == 'i');
        assert("gratuity"@[0] == 'g');
        assert("payments"@[0] == 'p');
        assert("items"@[0] == 'i');
        assert("links"@[0] == 'l');
    }

    /// Where the `invoicer` field stands in the wire document.
    proof fn lemma_lookup_invoicer(t: Self)
        ensures
            lookup(t.wire_fields(), "invoicer"@) == (match t.invoicer {
                Some(x) => Some(x.encoding()),
                None => None::<Jv>,
            }),
    {
        reveal_strlit("id");
        reveal_strlit("parent_id");
        reveal_strlit("status");
        reveal_strlit("detail");
        reveal_strlit("invoicer");
        reveal_strlit("primary_recipients");
        reveal_strlit("additional_recipients");
        reveal_strlit("items");
        reveal_strlit("configuration");
        reveal_strlit("amount");
        reveal_strlit("due_amount");
        reveal_strlit("gratuity");
        reveal_strlit("payments");
        reveal_strlit("refunds");
        reveal_strlit("links");
        assert("id"@.len() == 2);
        assert("parent_id"@.len() == 9);
        assert("status"@.len() == 6);
        assert("detail"@.len() == 6);
        assert("invoicer"@.len() == 8);
        assert("primary_recipients"@.len() == 18);
        assert("additional_recipients"@.len() == 21);
        assert("items"@.len() == 5);
        assert("configuration"@.len() == 13);
        assert("amount"@.len() == 6);
        assert("due_amount"@.len() == 10);
        assert("gratuity"@.len() == 8);
        assert("payments"@.len() == 8);
        assert("refunds"@.len() == 7);
        assert("links"@.len() == 5);
        assert("status"@[0] == 's');
        assert("detail"@[0] == 'd');
        assert("amount"@[0] == 'a');
        assert("invoicer"@[0] == 'i');
        assert("gratuity"@[0] == 'g');
        assert("payments"@[0] == 'p');
        assert("items"@[0] == 'i');
        assert("links"@[0] == 'l');
    }

    /// Where the `primary_recipients` field stands in the wire document.
    proof fn lemma_lookup_primary_recipients(t: Self)
        ensures
            lookup(t.wire_fields(), "primary_recipients"@) == (match t.primary_recipients {
                Some(x) => Some(x.encoding()),
                None => None::<Jv>,
            }),
    {
        reveal_strlit("id");
        reveal_strlit("parent_id");
        reveal_strlit("status");
        reveal_strlit("detail");
        reveal_strlit("invoicer");
        reveal_strlit("primary_recipients");
        reveal_strlit("additional_recipients");
        reveal_strlit("items");
        reveal_strlit("configuration");
        reveal_strlit("amount");
        reveal_strlit("due_amount");
        reveal_strlit("gratuity");
        reveal_strlit("payments");
        reveal_strlit("refunds");
        reveal_strlit("links");
        assert("id"@.len() == 2);
        assert("parent_id"@.len() == 9);
        assert("status"@.len() == 6);
        assert("detail"@.len() == 6);
        assert("invoicer"@.len() == 8);
        assert("primary_recipients"@.len() == 18);
        assert("additional_recipients"@.len() == 21);
        assert("items"@.len() == 5);
        assert("configuration"@.len() == 13);
        assert("amount"@.len() == 6);
        assert("due_amount"@.len() == 10);
        assert("gratuity"@.len() == 8);
        assert("payments"@.len() == 8);
        assert("refunds"@.len() == 7);
        assert("links"@.len() == 5);
        assert("status"@[0] == 's');
        assert("detail"@[0] == 'd');
        assert("amount"@[0] == 'a');
        assert("invoicer"@[0] == 'i');
        assert("gratuity"@[0] == 'g');
        assert("payments"@[0] == 'p');
        assert("items"@[0] == 'i');
        assert("links"@[0] == 'l');
    }

    /// Where the `additional_recipients` field stands in the wire document.
    proof fn lemma_lookup_additional_recipients(t: Self)
        ensures
            lookup(t.wire_fields(), "additional_recipients"@) == (match t.additional_recipients {
                Some(x) => Some(x.encoding()),
                None => None::<Jv>,
            }),
    {
        reveal_strlit("id");
        reveal_strlit("parent_id");
        reveal_strlit("status");
        reveal_strlit("detail");
        reveal_strlit("invoicer");
        reveal_strlit("primary_recipients");
        reveal_strlit("additional_recipients");
        reveal_strlit("items");
        reveal_strlit("configuration");
        reveal_strlit("amount");
        reveal_strlit("due_amount");
        reveal_strlit("gratuity");
        reveal_strlit("payments");
        reveal_strlit("refunds");
        reveal_strlit("links");
        assert("id"@.len() == 2);
        assert("parent_id"@.len() == 9);
        assert("status"@.len() == 6);
        assert("detail"@.len() == 6);
        assert("invoicer"@.len() == 8);
        assert("primary_recipients"@.len() == 18);
        assert("additional_recipients"@.len() == 21);
        assert("items"@.len() == 5);
        assert("configuration"@.len() == 13);
        assert("amount"@.len() == 6);
        assert("due_amount"@.len() == 10);
        assert("gratuity"@.len() == 8);
        assert("payments"@.len() == 8);
        assert("refunds"@.len() == 7);
        assert("links"@.len() == 5);
        assert("status"@[0] == 's');
        assert("detail"@[0] == 'd');
        assert("amount"@[0] == 'a');
        assert("invoicer"@[0] == 'i');
        assert("gratuity"@[0] == 'g');
        assert("payments"@[0] == 'p');
        assert("items"@[0] == 'i');
        assert("links"@[0] == 'l');
    }

    /// Where the `items` field stands in the wire document.
    proof fn lemma_lookup_items(t: Self)
        ensures
            lookup(t.wire_fields(), "items"@) == (match t.items {
                Some(x) => Some(x.encoding()),
                None => None::<Jv>,
            }),
    {
        reveal_strlit("id");
        reveal_strlit("parent_id");
        reveal_strlit("status");
        reveal_strlit("detail");
        reveal_strlit("invoicer");
        reveal_strlit("primary_recipients");
        reveal_strlit("additional_recipients");
        reveal_strlit("items");
        reveal_strlit("configuration");
        reveal_strlit("amount");
        reveal_strlit("due_amount");
        reveal_strlit("gratuity");
        reveal_strlit("payments");
        reveal_strlit("refunds");
        reveal_strlit("links");
        assert("id"@.len() == 2);
        assert("parent_id"@.len() == 9);
        assert("status"@.len() == 6);
        assert("detail"@.len() == 6);
        assert("invoicer"@.len() == 8);
        assert("primary_recipients"@.len() == 18);
        assert("additional_recipients"@.len() == 21);
        assert("items"@.len() == 5);
        assert("configuration"@.len() == 13);
        assert("amount"@.len() == 6);
        assert("due_amount"@.len() == 10);
        assert("gratuity"@.len() == 8);
        assert("payments"@.len() == 8);
        assert("refunds"@.len() == 7);
        assert("links"@.len() == 5);
        assert("status"@[0] == 's');
        assert("detail"@[0] == 'd');
        assert("amount"@[0] == 'a');
        assert("invoicer"@[0] == 'i');
        assert("gratuity"@[0] == 'g');
        assert("payments"@[0] == 'p');
        assert("items"@[0] == 'i');
        assert("links"@[0] == 'l');
    }

    /// Where the `configuration` field stands in the wire document.
    proof fn lemma_lookup_configuration(t: Self)
        ensures
            lookup(t.wire_fields(), "configuration"@) == (match t.configuration {
                Some(x) => Some(x.encoding()),
                None => None::<Jv>,
            }),
    {
        reveal_strlit("id");
        reveal_strlit("parent_id");
        reveal_strlit("status");
        reveal_strlit("detail");
        reveal_strlit("invoicer");
        reveal_strlit("primary_recipients");
        reveal_strlit("additional_recipients");
        reveal_strlit("items");
        reveal_strlit("configuration");
        reveal_strlit("amount");
        reveal_strlit("due_amount");
        reveal_strlit("gratuity");
        reveal_strlit("payments");
        reveal_strlit("refunds");
        reveal_strlit("links");
        assert("id"@.len() == 2);
        assert("parent_id"@.len() == 9);
        assert("status"@.len() == 6);
        assert("detail"@.len() == 6);
        assert("invoicer"@.len() == 8);
        assert("primary_recipients"@.len() == 18);
        assert("additional_recipients"@.len() == 21);
        assert("items"@.len() == 5);
        assert("configuration"@.len() == 13);
        assert("amount"@.len() == 6);
        assert("due_amount"@.len() == 10);
        assert("gratuity"@.len() == 8);
        assert("payments"@.len() == 8);
        assert("refunds"@.len() == 7);
        assert("links"@.len() == 5);
        assert("status"@[0] == 's');
        assert("detail"@[0] == 'd');
        assert("amount"@[0] == 'a');
        assert("invoicer"@[0] == 'i');
        assert("gratuity"@[0] == 'g');
        assert("payments"@[0] == 'p');
        assert("items"@[0] == 'i');
        assert("links"@[0] == 'l');
    }

    /// Where the `amount` field stands in the wire document.
    proof fn lemma_lookup_amount(t: Self)
        ensures
            lookup(t.wire_fields(), "amount"@) == Some(t.amount.encoding()),
    {
        reveal_strlit("id");
        reveal_strlit("parent_id");
        reveal_strlit("status");
        reveal_strlit("detail");
        reveal_strlit("invoicer");
        reveal_strlit("primary_recipients");
        reveal_strlit("additional_recipients");
        reveal_strlit("items");
        reveal_strlit("configuration");
        reveal_strlit("amount");
        reveal_strlit("due_amount");
        reveal_strlit("gratuity");
        reveal_strlit("payments");
        reveal_strlit("refunds");
        reveal_strlit("links");
        assert("id"@.len() == 2);
        assert("parent_id"@.len() == 9);
        assert("status"@.len() == 6);
        assert("detail"@.len() == 6);
        assert("invoicer"@.len() == 8);
        assert("primary_recipients"@.len() == 18);
        assert("additional_recipients"@.len() == 21);
        assert("items"@.len() == 5);
        assert("configuration"@.len() == 13);
        assert("amount"@.len() == 6);
        assert("due_amount"@.len() == 10);
        assert("gratuity"@.len() == 8);
        assert("payments"@.len() == 8);
        assert("refunds"@.len() == 7);
        assert("links"@.len() == 5);
        assert("status"@[0] == 's');
        assert("detail"@[0] == 'd');
        assert("amount"@[0] == 'a');
        assert("invoicer"@[0] == 'i');
        assert("gratuity"@[0] == 'g');
        assert("payments"@[0] == 'p');
        assert("items"@[0] == 'i');
        assert("links"@[0] == 'l');
    }

    /// Where the `due_amount` field stands in the wire document.
    proof fn lemma_lookup_due_amount(t: Self)
        ensures
            lookup(t.wire_fields(), "due_amount"@) == (match t.due_amount {
                Some(x) => Some(x.encoding()),
                None => None::<Jv>,
            }),
    {
        reveal_strlit("id");
        reveal_strlit("parent_id");
        reveal_strlit("status");
        reveal_strlit("detail");
        reveal_strlit("invoicer");
        reveal_strlit("primary_recipients");
        reveal_strlit("additional_recipients");
        reveal_strlit("items");
        reveal_strlit("configuration");
        reveal_strlit("amount");
        reveal_strlit("due_amount");
        reveal_strlit("gratuity");
        reveal_strlit("payments");
        reveal_strlit("refunds");
        reveal_strlit("links");
        assert("id"@.len() == 2);
        assert("parent_id"@.len() == 9);
        assert("status"@.len() == 6);
        assert("detail"@.len() == 6);
        assert("invoicer"@.len() == 8);
        assert("primary_recipients"@.len() == 18);
        assert("additional_recipients"@.len() == 21);
        assert("items"@.len() == 5);
        assert("configuration"@.len() == 13);
        assert("amount"@.len() == 6);
        assert("due_amount"@.len() == 10);
        assert("gratuity"@.len() == 8);
        assert("payments"@.len() == 8);
        assert("refunds"@.len() == 7);
        assert("links"@.len() == 5);
        assert("status"@[0] == 's');
        assert("detail"@[0] == 'd');
        assert("amount"@[0] == 'a');
        assert("invoicer"@[0] == 'i');
        assert("gratuity"@[0] == 'g');
        assert("payments"@[0] == 'p');
        assert("items"@[0] == 'i');
        assert("links"@[0] == 'l');
    }

    /// Where the `gratuity` field stands in the wire document.
    proof fn lemma_lookup_gratuity(t: Self)
        ensures
            lookup(t.wire_fields(), "gratuity"@) == (match t.gratuity {
                Some(x) => Some(x.encoding()),
                None => None::<Jv>,
            }),
    {
        reveal_strlit("id");
        reveal_strlit("parent_id");
        reveal_strlit("status");
        reveal_strlit("detail");
        reveal_strlit("invoicer");
        reveal_strlit("primary_recipients");
        reveal_strlit("additional_recipients");
        reveal_strlit("items");
        reveal_strlit("configuration");
        reveal_strlit("amount");
        reveal_strlit("due_amount");
        reveal_strlit("gratuity");
        reveal_strlit("payments");
        reveal_strlit("refunds");
        reveal_strlit("links");
        assert("id"@.len() == 2);
        assert("parent_id"@.len() == 9);
        assert("status"@.len() == 6);
        assert("detail"@.len() == 6);
        assert("invoicer"@.len() == 8);
        assert("primary_recipients"@.len() == 18);
        assert("additional_recipients"@.len() == 21);
        assert("items"@.len() == 5);
        assert("configuration"@.len() == 13);
        assert("amount"@.len() == 6);
        assert("due_amount"@.len() == 10);
        assert("gratuity"@.len() == 8);
        assert("payments"@.len() == 8);
        assert("refunds"@.len() == 7);
        assert("links"@.len() == 5);
        assert("status"@[0] == 's');
        assert("detail"@[0] == 'd');
        assert("amount"@[0] == 'a');
        assert("invoicer"@[0] == 'i');
        assert("gratuity"@[0] == 'g');
        assert("payments"@[0] == 'p');
        assert("items"@[0] == 'i');
        assert("links"@[0] == 'l');
    }

    /// Where the `payments` field stands in the wire document.
    proof fn lemma_lookup_payments(t: Self)
        ensures
            lookup(t.wire_fields(), "payments"@) == (match t.payments {
                Some(x) => Some(x.encoding()),
                None => None::<Jv>,
            }),
    {
        reveal_strlit("id");
        reveal_strlit("parent_id");
        reveal_strlit("status");
        reveal_strlit("detail");
        reveal_strlit("invoicer");
        reveal_strlit("primary_recipients");
        reveal_strlit("additional_recipients");
        reveal_strlit("items");
        reveal_strlit("configuration");
        reveal_strlit("amount");
        reveal_strlit("due_amount");
        reveal_strlit("gratuity");
        reveal_strlit("payments");
        reveal_strlit("refunds");
        reveal_strlit("links");
        assert("id"@.len() == 2);
        assert("parent_id"@.len() == 9);
        assert("status"@.len() == 6);
        assert("detail"@.len() == 6);
        assert("invoicer"@.len() == 8);
        assert("primary_recipients"@.len() == 18);
        assert("additional_recipients"@.len() == 21);
        assert("items"@.len() == 5);
        assert("configuration"@.len() == 13);
        assert("amount"@.len() == 6);
        assert("due_amount"@.len() == 10);
        assert("gratuity"@.len() == 8);
        assert("payments"@.len() == 8);
        assert("refunds"@.len() == 7);
        assert("links"@.len() == 5);
        assert("status"@[0] == 's');
        assert("detail"@[0] == 'd');
        assert("amount"@[0] == 'a');
        assert("invoicer"@[0] == 'i');
        assert("gratuity"@[0] == 'g');
        assert("payments"@[0] == 'p');
        assert("items"@[0] == 'i');
        assert("links"@[0] == 'l');
    }

    /// Where the `refunds` field stands in the wire document.
    proof fn lemma_lookup_refunds(t: Self)
        ensures
            lookup(t.wire_fields(), "refunds"@) == (match t.refunds {
                Some(x) => Some(x.encoding()),
                None => None::<Jv>,
            }),
    {
        reveal_strlit("id");
        reveal_strlit("parent_id");
        reveal_strlit("status");
        reveal_strlit("detail");
        reveal_strlit("invoicer");
        reveal_strlit("primary_recipients");
        reveal_strlit("additional_recipients");
        reveal_strlit("items");
        reveal_strlit("configuration");
        reveal_strlit("amount");
        reveal_strlit("due_amount");
        reveal_strlit("gratuity");
        reveal_strlit("payments");
        reveal_strlit("refunds");
        reveal_strlit("links");
        assert("id"@.len() == 2);
        assert("parent_id"@.len() == 9);
        assert("status"@.len() == 6);
        assert("detail"@.len() == 6);
        assert("invoicer"@.len() == 8);
        assert("primary_recipients"@.len() == 18);
        assert("additional_recipients"@.len() == 21);
        assert("items"@.len() == 5);
        assert("configuration"@.len() == 13);
        assert("amount"@.len() == 6);
        assert("due_amount"@.len() == 10);
        assert("gratuity"@.len() == 8);
        assert("payments"@.len() == 8);
        assert("refunds"@.len() == 7);
        assert("links"@.len() == 5);
        assert("status"@[0] == 's');
        assert("detail"@[0] == 'd');
        assert("amount"@[0] == 'a');
        assert("invoicer"@[0] == 'i');
        assert("gratuity"@[0] == 'g');
        assert("payments"@[0] == 'p');
        assert("items"@[0] == 'i');
        assert("links"@[0] == 'l');
    }

    /// Where the `links` field stands in the wire document.
    proof fn lemma_lookup_links(t: Self)
        ensures
            lookup(t.wire_fields(), "links"@) == (match t.links {
                Some(x) => Some(x.encoding()),
                None => None::<Jv>,
            }),
    {
        reveal_strlit("id");
        reveal_strlit("parent_id");
        reveal_strlit("status");
        reveal_strlit("detail");
        reveal_strlit("invoicer");
        reveal_strlit("primary_recipients");
        reveal_strlit("additional_recipients");
        reveal_strlit("items");
        reveal_strlit("configuration");
        reveal_strlit("amount");
        reveal_strlit("due_amount");
        reveal_strlit("gratuity");
        reveal_strlit("payments");
        reveal_strlit("refunds");
        reveal_strlit("links");
        assert("id"@.len() == 2);
        assert("parent_id"@.len() == 9);
        assert("status"@.len() == 6);
        assert("detail"@.len() == 6);
        assert("invoicer"@.len() == 8);
        assert("primary_recipients"@.len() == 18);
        assert("additional_recipients"@.len() == 21);
        assert("items"@.len() == 5);
        assert("configuration"@.len() == 13);
        assert("amount"@.len() == 6);
        assert("due_amount"@.len() == 10);
        assert("gratuity"@.len() == 8);
        assert("payments"@.len() == 8);
        assert("refunds"@.len() == 7);
        assert("links"@.len() == 5);
        assert("status"@[0] == 's');
        assert("detail"@[0] == 'd');
        assert("amount"@[0] == 'a');
        assert("invoicer"@[0] == 'i');
        assert("gratuity"@[0] == 'g');
        assert("payments"@[0] == 'p');
        assert("items"@[0] == 'i');
        assert("links"@[0] == 'l');
    }

    /// Two values that decode from the same document put the same
    /// document back on the wire.
    #[verifier::rlimit(100)]
    proof fn lemma_encoding_agrees(t: Self, u: Self)
        requires
            <Invoice as WireCodec>::decodes_to(t.encoding(), u),
        ensures
            u.encoding() == t.encoding(),
    {
        Self::lemma_lookup_id(t);
        Self::lemma_lookup_parent_id(t);
        Self::lemma_lookup_status(t);
        Self::lemma_lookup_detail(t);
        Self::lemma_lookup_invoicer(t);
        Self::lemma_lookup_primary_recipients(t);
        Self::lemma_lookup_additional_recipients(t);
        Self::lemma_lookup_items(t);
        Self::lemma_lookup_configuration(t);
        Self::lemma_lookup_amount(t);
        Self::lemma_lookup_due_amount(t);
        Self::lemma_lookup_gratuity(t);
        Self::lemma_lookup_payments(t);
        Self::lemma_lookup_refunds(t);
        Self::lemma_lookup_links(t);
        Status::lemma_round_trip(t.status, u.status);
        InvoiceDetail::lemma_round_trip(t.detail, u.detail);
        if let (Some(x), Some(y)) = (t.invoicer, u.invoicer) {
            InvoicerInfo::lemma_round_trip(x, y);
        }
        if let (Some(x), Some(y)) = (t.primary_recipients, u.primary_recipients) {
            <Vec<RecipientInfo> as WireCodec>::lemma_round_trip(x, y);
        }
        if let (Some(x), Some(y)) = (t.additional_recipients, u.additional_recipients) {
            <Vec<String> as WireCodec>::lemma_round_trip(x, y);
        }
        if let (Some(x), Some(y)) = (t.items, u.items) {
            <Vec<Item> as WireCodec>::lemma_round_trip(x, y);
        }
        if let (Some(x), Some(y)) = (t.configuration, u.configuration) {
            Configuration::lemma_round_trip(x, y);
        }
        Amount::lemma_round_trip(t.amount, u.amount);
        if let (Some(x), Some(y)) = (t.due_amount, u.due_amount) {
            Money::lemma_round_trip(x, y);
        }
        if let (Some(x), Some(y)) = (t.gratuity, u.gratuity) {
            Money::lemma_round_trip(x, y);
        }
        if let (Some(x), Some(y)) = (t.payments, u.payments) {
            Payments::lemma_round_trip(x, y);
        }
        if let (Some(x), Some(y)) = (t.refunds, u.refunds) {
            Refunds::lemma_round_trip(x, y);
        }
        if let (Some(x), Some(y)) = (t.links, u.links) {
            <Vec<LinkDescription> as WireCodec>::lemma_round_trip(x, y);
        }
        assert(field_entry("id"@, u.id.encoding()) == field_entry("id"@, t.id.encoding()));
        assert(opt_entry("parent_id"@, u.parent_id) == opt_entry("parent_id"@, t.parent_id));
        assert(field_entry("status"@, u.status.encoding()) == field_entry("status"@, t.status.encoding()));
        assert(field_entry("detail"@, u.detail.encoding()) == field_entry("detail"@, t.detail.encoding()));
        assert(opt_entry("invoicer"@, u.invoicer) == opt_entry("invoicer"@, t.invoicer));
        assert(opt_entry("primary_recipients"@, u.primary_recipients) == opt_entry("primary_recipients"@, t.primary_recipients));
        assert(opt_entry("additional_recipients"@, u.additional_recipients) == opt_entry("additional_recipients"@, t.additional_recipients));
        assert(opt_entry("items"@, u.items) == opt_entry("items"@, t.items));
        assert(opt_entry("configuration"@, u.configuration) == opt_entry("configuration"@, t.configuration));
        assert(field_entry("amount"@, u.amount.encoding()) == field_entry("amount"@, t.amount.encoding()));
        assert(opt_entry("due_amount"@, u.due_amount) == opt_entry("due_amount"@, t.due_amount));
        assert(opt_entry("gratuity"@, u.gratuity) == opt_entry("gratuity"@, t.gratuity));
        assert(opt_entry("payments"@, u.payments) == opt_entry("payments"@, t.payments));
        assert(opt_entry("refunds"@, u.refunds) == opt_entry("refunds"@, t.refunds));
        assert(opt_entry("links"@, u.links) == opt_entry("links"@, t.links));
        assert(u.wire_fields() == t.wire_fields());
    }
}

impl WireCodec for Invoice {
    open spec fn encoding(self) -> Jv {
        Jv::Object(self.wire_fields())
    }

    open spec fn can_decode(v: Jv) -> bool {
        match v {
            Jv::Object(fs) => {
                &&& req_ok::<String>(fs, "id"@)
                &&& opt_ok::<String>(fs, "parent_id"@)
                &&& req_ok::<Status>(fs, "status"@)
                &&& req_ok::<InvoiceDetail>(fs, "detail"@)
                &&& opt_ok::<InvoicerInfo>(fs, "invoicer"@)
                &&& opt_ok::<Vec<RecipientInfo>>(fs, "primary_recipients"@)
                &&& opt_ok::<Vec<String>>(fs, "additional_recipients"@)
                &&& opt_ok::<Vec<Item>>(fs, "items"@)
                &&& opt_ok::<Configuration>(fs, "configuration"@)
                &&& req_ok::<Amount>(fs, "amount"@)
                &&& opt_ok::<Money>(fs, "due_amount"@)
                &&& opt_ok::<Money>(fs, "gratuity"@)
                &&& opt_ok::<Payments>(fs, "payments"@)
                &&& opt_ok::<Refunds>(fs, "refunds"@)
                &&& opt_ok::<Vec<LinkDescription>>(fs, "links"@)
            },
            _ => false,
        }
    }

    open spec fn decodes_to(v: Jv, t: Self) -> bool {
        match v {
            Jv::Object(fs) => {
                &&& req_rel::<String>(fs, "id"@, t.id)
                &&& opt_rel::<String>(fs, "parent_id"@, t.parent_id)
                &&& req_rel::<Status>(fs, "status"@, t.status)
                &&& req_rel::<InvoiceDetail>(fs, "detail"@, t.detail)
                &&& opt_rel::<InvoicerInfo>(fs, "invoicer"@, t.invoicer)
                &&& opt_rel::<Vec<RecipientInfo>>(fs, "primary_recipients"@, t.primary_recipients)
                &&& opt_rel::<Vec<String>>(fs, "additional_recipients"@, t.additional_recipients)
                &&& opt_rel::<Vec<Item>>(fs, "items"@, t.items)
                &&& opt_rel::<Configuration>(fs, "configuration"@, t.configuration)
                &&& req_rel::<Amount>(fs, "amount"@, t.amount)
                &&& opt_rel::<Money>(fs, "due_amount"@, t.due_amount)
                &&& opt_rel::<Money>(fs, "gratuity"@, t.gratuity)
                &&& opt_rel::<Payments>(fs, "payments"@, t.payments)
                &&& opt_rel::<Refunds>(fs, "refunds"@, t.refunds)
                &&& opt_rel::<Vec<LinkDescription>>(fs, "links"@, t.links)
            },
            _ => false,
        }
    }

    #[verifier::rlimit(100)]
    fn encode(&self) -> (r: JsonValue) {
        let mut fs: Vec<(String, JsonValue)> = Vec::new();
        push_req(&mut fs, "id", &self.id);
        push_opt(&mut fs, "parent_id", &self.parent_id);
        push_req(&mut fs, "status", &self.status);
        push_req(&mut fs, "detail", &self.detail);
        push_opt(&mut fs, "invoicer", &self.invoicer);
        push_opt(&mut fs, "primary_recipients", &self.primary_recipients);
        push_opt(&mut fs, "additional_recipients", &self.additional_recipients);
        push_opt(&mut fs, "items", &self.items);
        push_opt(&mut fs, "configuration", &self.configuration);
        push_req(&mut fs, "amount", &self.amount);
        push_opt(&mut fs, "due_amount", &self.due_amount);
        push_opt(&mut fs, "gratuity", &self.gratuity);
        push_opt(&mut fs, "payments", &self.payments);
        push_opt(&mut fs, "refunds", &self.refunds);
        push_opt(&mut fs, "links", &self.links);
        proof {
            crate::json::lemma_concat_left_empty(field_entry("id"@, (*self).id.encoding()));
            assert(jv_of_fields(fs@) == (*self).wire_fields());
        }
        JsonValue::Object(fs)
    }

    fn decode(v: &JsonValue) -> (r: Result<Self, DecodeError>) {
        match v {
            JsonValue::Object(fields) => {
                let id = match get_req::<String>(fields, "id") {
                    Ok(x) => x,
                    Err(e) => return Err(e),
                };
                let parent_id = match get_opt::<String>(fields, "parent_id") {
                    Ok(x) => x,
                    Err(e) => return Err(e),
                };
                let status = match get_req::<Status>(fields, "status") {
                    Ok(x) => x,
                    Err(e) => return Err(e),
                };
                let detail = match get_req::<InvoiceDetail>(fields, "detail") {
                    Ok(x) => x,
                    Err(e) => return Err(e),
                };
                let invoicer = match get_opt::<InvoicerInfo>(fields, "invoicer") {
                    Ok(x) => x,
                    Err(e) => return Err(e),
                };
                let primary_recipients = match get_opt::<Vec<RecipientInfo>>(fields, "primary_recipients") {
                    Ok(x) => x,
                    Err(e) => return Err(e),
                };
                let additional_recipients = match get_opt::<Vec<String>>(fields, "additional_recipients") {
                    Ok(x) => x,
                    Err(e) => return Err(e),
                };
                let items = match get_opt::<Vec<Item>>(fields, "items") {
                    Ok(x) => x,
                    Err(e) => return Err(e),
                };
                let configuration = match get_opt::<Configuration>(fields, "configuration") {
                    Ok(x) => x,
                    Err(e) => return Err(e),
                };
                let amount = match get_req::<Amount>(fields, "amount") {
                    Ok(x) => x,
                    Err(e) => return Err(e),
                };
                let due_amount = match get_opt::<Money>(fields, "due_amount") {
                    Ok(x) => x,
                    Err(e) => return Err(e),
                };
                let gratuity = match get_opt::<Money>(fields, "gratuity") {
                    Ok(x) => x,
                    Err(e) => return Err(e),
                };
                let payments = match get_opt::<Payments>(fields, "payments") {
                    Ok(x) => x,
                    Err(e) => return Err(e),
                };
                let refunds = match get_opt::<Refunds>(fields, "refunds") {
                    Ok(x) => x,
                    Err(e) => return Err(e),
                };
                let links = match get_opt::<Vec<LinkDescription>>(fields, "links") {
                    Ok(x) => x,
                    Err(e) => return Err(e),
                };
                Ok(Invoice { id, parent_id, status, detail, invoicer, primary_recipients, additional_recipients, items, configuration, amount, due_amount, gratuity, payments, refunds, links })
            },
            _ => Err(DecodeError::WrongType("object".to_owned())),
        }
    }

    #[verifier::rlimit(100)]
    proof fn lemma_round_trip(t: Self, u: Self) {
        Self::lemma_lookup_id(t);
        Self::lemma_lookup_parent_id(t);
        Self::lemma_lookup_status(t);
        Self::lemma_lookup_detail(t);
        Self::lemma_lookup_invoicer(t);
        Self::lemma_lookup_primary_recipients(t);
        Self::lemma_lookup_additional_recipients(t);
        Self::lemma_lookup_items(t);
        Self::lemma_lookup_configuration(t);
        Self::lemma_lookup_amount(t);
        Self::lemma_lookup_due_amount(t);
        Self::lemma_lookup_gratuity(t);
        Self::lemma_lookup_payments(t);
        Self::lemma_lookup_refunds(t);
        Self::lemma_lookup_links(t);
        Status::lemma_round_trip(t.status, t.status);
        InvoiceDetail::lemma_round_trip(t.detail, t.detail);
        if let Some(x) = t.invoicer {
            InvoicerInfo::lemma_round_trip(x, x);
        }
        if let Some(x) = t.primary_recipients {
            <Vec<RecipientInfo> as WireCodec>::lemma_round_trip(x, x);
        }
        if let Some(x) = t.additional_recipients {
            <Vec<String> as WireCodec>::lemma_round_trip(x, x);
        }
        if let Some(x) = t.items {
            <Vec<Item> as WireCodec>::lemma_round_trip(x, x);
        }
        if let Some(x) = t.configuration {
            Configuration::lemma_round_trip(x, x);
        }
        Amount::lemma_round_trip(t.amount, t.amount);
        if let Some(x) = t.due_amount {
            Money::lemma_round_trip(x, x);
        }
        if let Some(x) = t.gratuity {
            Money::lemma_round_trip(x, x);
        }
        if let Some(x) = t.payments {
            Payments::lemma_round_trip(x, x);
        }
        if let Some(x) = t.refunds {
            Refunds::lemma_round_trip(x, x);
        }
        if let Some(x) = t.links {
            <Vec<LinkDescription> as WireCodec>::lemma_round_trip(x, x);
        }
        if Self::decodes_to(t.encoding(), u) {
            Self::lemma_encoding_agrees(t, u);
        }
    }
}

/// A page of invoices.
#[derive(Debug, PartialEq)]
pub struct InvoiceList {
    /// The total number of items.
    pub total_items: i32,
    /// The total number of pages.
    pub total_pages: i32,
    /// The invoices on this page.
    pub items: Vec<Invoice>,
    /// HATEOAS links.
    pub links: Vec<LinkDescription>,
}

/// The reason given when cancelling an invoice.
#[derive(Debug, Clone, PartialEq)]
pub struct CancelReason {
    /// The subject of the notification email sent to the recipient.
    pub subject: Option<String>,
    /// A note to the payer.
    pub note: Option<String>,
    /// Whether to send a copy of the email to the merchant.
    pub send_to_invoicer: Option<bool>,
    /// Whether to send a copy of the email to the recipient.
    pub send_to_recipient: Option<bool>,
    /// One or more CC: emails to which notifications are sent.
    pub additional_recipients: Option<Vec<String>>,
}

impl CancelReason {
    /// The fields of this value's wire document, in emission order.
    pub open spec fn wire_fields(self) -> Seq<(Seq<char>, Jv)> {
        opt_entry("subject"@, self.subject) + opt_entry("note"@, self.note) + opt_entry(
            "send_to_invoicer"@,
            self.send_to_invoicer,
        ) + opt_entry("send_to_recipient"@, self.send_to_recipient) + opt_entry(
            "additional_recipients"@,
            self.additional_recipients,
        )
    }
}

impl WireCodec for CancelReason {
    open spec fn encoding(self) -> Jv {
        Jv::Object(self.wire_fields())
    }

    open spec fn can_decode(v: Jv) -> bool {
        match v {
            Jv::Object(fs) => {
                &&& opt_ok::<String>(fs, "subject"@)
                &&& opt_ok::<String>(fs, "note"@)
                &&& opt_ok::<bool>(fs, "send_to_invoicer"@)
                &&& opt_ok::<bool>(fs, "send_to_recipient"@)
                &&& opt_ok::<Vec<String>>(fs, "additional_recipients"@)
            },
            _ => false,
        }
    }

    open spec fn decodes_to(v: Jv, t: Self) -> bool {
        match v {
            Jv::Object(fs) => {
                &&& opt_rel::<String>(fs, "subject"@, t.subject)
                &&& opt_rel::<String>(fs, "note"@, t.note)
                &&& opt_rel::<bool>(fs, "send_to_invoicer"@, t.send_to_invoicer)
                &&& opt_rel::<bool>(fs, "send_to_recipient"@, t.send_to_recipient)
                &&& opt_rel::<Vec<String>>(fs, "additional_recipients"@, t.additional_recipients)
            },
            _ => false,
        }
    }

    fn encode(&self) -> (r: JsonValue) {
        let mut fs: Vec<(String, JsonValue)> = Vec::new();
        if let Some(x) = &self.subject {
            fs.push(("subject".to_owned(), x.encode()));
        }
        if let Some(x) = &self.note {
            fs.push(("note".to_owned(), x.encode()));
        }
        if let Some(x) = &self.send_to_invoicer {
            fs.push(("send_to_invoicer".to_owned(), x.encode()));
        }
        if let Some(x) = &self.send_to_recipient {
            fs.push(("send_to_recipient".to_owned(), x.encode()));
        }
        if let Some(x) = &self.additional_recipients {
            fs.push(("additional_recipients".to_owned(), x.encode()));
        }
        proof {
            crate::json::lemma_jv_of_fields(fs@);
            assert(jv_of_fields(fs@) =~= (*self).wire_fields());
        }
        JsonValue::Object(fs)
    }

    fn decode(v: &JsonValue) -> (r: Result<Self, DecodeError>) {
        match v {
            JsonValue::Object(fields) => {
                let subject = match get_opt::<String>(fields, "subject") {
                    Ok(x) => x,
                    Err(e) => return Err(e),
                };
                let note = match get_opt::<String>(fields, "note") {
                    Ok(x) => x,
                    Err(e) => return Err(e),
                };
                let send_to_invoicer = match get_opt::<bool>(fields, "send_to_invoicer") {
                    Ok(x) => x,
                    Err(e) => return Err(e),
                };
                let send_to_recipient = match get_opt::<bool>(fields, "send_to_recipient") {
                    Ok(x) => x,
                    Err(e) => return Err(e),
                };
                let additional_recipients = match get_opt::<Vec<String>>(
                    fields,
                    "additional_recipients",
                ) {
                    Ok(x) => x,
                    Err(e) => return Err(e),
                };
                Ok(
                    CancelReason {
                        subject,
                        note,
                        send_to_invoicer,
                        send_to_recipient,
                        additional_recipients,
                    },
                )
            },
            _ => Err(DecodeError::WrongType("object".to_owned())),
        }
    }

    proof fn lemma_round_trip(t: Self, u: Self) {
        reveal_strlit("subject");
        reveal_strlit("note");
        reveal_strlit("send_to_invoicer");
        reveal_strlit("send_to_recipient");
        reveal_strlit("additional_recipients");
        assert("subject"@.len() == 7);
        assert("note"@.len() == 4);
        assert("send_to_invoicer"@.len() == 16);
        assert("send_to_recipient"@.len() == 17);
        assert("additional_recipients"@.len() == 21);
        if let Some(x) = t.additional_recipients {
            <Vec<String> as WireCodec>::lemma_round_trip(x, x);
        }
        if Self::decodes_to(t.encoding(), u) {
            if let (Some(x), Some(y)) = (t.additional_recipients, u.additional_recipients) {
                <Vec<String> as WireCodec>::lemma_round_trip(x, y);
            }
            assert(u.wire_fields() =~= t.wire_fields());
        }
    }
}

/// The QR action for a payment URL.
pub const QR_ACTION_PAY: &'static str = "pay";

/// The QR action for a details URL.
pub const QR_ACTION_DETAILS: &'static str = "details";

/// The parameters for generating a QR code for an invoice.
#[derive(Debug, Clone, PartialEq)]
pub struct QRCodeParams {
    /// The width, in pixels, of the QR code image, from 150 to 500.
    pub width: i32,
    /// The height, in pixels, of the QR code image, from 150 to 500.
    pub height: i32,
    /// The type of URL for which to generate a QR code: `pay` or `details`.
    pub action: Option<String>,
}

/// A payment to record against an invoice.
#[derive(Debug, PartialEq)]
pub struct RecordPaymentPayload {
    /// The payment ID.
    pub payment_id: Option<String>,
    /// The payment date, as an ISO-8601 timestamp.
    pub payment_date: Option<String>,
    /// The payment method.
    pub method: PaymentMethod,
    /// A note.
    pub note: Option<String>,
    /// The amount.
    pub amount: Amount,
    /// The shipping information.
    pub shipping_info: Option<ContactInformation>,
}

impl RecordPaymentPayload {
    /// The fields of this value's wire document, in emission order.
    pub open spec fn wire_fields(self) -> Seq<(Seq<char>, Jv)> {
        opt_entry("payment_id"@, self.payment_id) + opt_entry("payment_date"@, self.payment_date) + field_entry("method"@, self.method.encoding()) + opt_entry("note"@, self.note) + field_entry("amount"@, self.amount.encoding()) + opt_entry("shipping_info"@, self.shipping_info)
    }
}

impl WireCodec for RecordPaymentPayload {
    open spec fn encoding(self) -> Jv {
        Jv::Object(self.wire_fields())
    }

    open spec fn can_decode(v: Jv) -> bool {
        match v {
            Jv::Object(fs) => {
                &&& opt_ok::<String>(fs, "payment_id"@)
                &&& opt_ok::<String>(fs, "payment_date"@)
                &&& req_ok::<PaymentMethod>(fs, "method"@)
                &&& opt_ok::<String>(fs, "note"@)
                &&& req_ok::<Amount>(fs, "amount"@)
                &&& opt_ok::<ContactInformation>(fs, "shipping_info"@)
            },
            _ => false,
        }
    }

    open spec fn decodes_to(v: Jv, t: Self) -> bool {
        match v {
            Jv::Object(fs) => {
                &&& opt_rel::<String>(fs, "payment_id"@, t.payment_id)
                &&& opt_rel::<String>(fs, "payment_date"@, t.payment_date)
                &&& req_rel::<PaymentMethod>(fs, "method"@, t.method)
                &&& opt_rel::<String>(fs, "note"@, t.note)
                &&& req_rel::<Amount>(fs, "amount"@, t.amount)
                &&& opt_rel::<ContactInformation>(fs, "shipping_info"@, t.shipping_info)
            },
            _ => false,
        }
    }

    fn encode(&self) -> (r: JsonValue) {
        let mut fs: Vec<(String, JsonValue)> = Vec::new();
        push_opt(&mut fs, "payment_id", &self.payment_id);
        push_opt(&mut fs, "payment_date", &self.payment_date);
        push_req(&mut fs, "method", &self.method);
        push_opt(&mut fs, "note", &self.note);
        push_req(&mut fs, "amount", &self.amount);
        push_opt(&mut fs, "shipping_info", &self.shipping_info);
        proof {
            crate::json::lemma_concat_left_empty(opt_entry("payment_id"@, (*self).payment_id));
            assert(jv_of_fields(fs@) == (*self).wire_fields());
        }
        JsonValue::Object(fs)
    }

    fn decode(v: &JsonValue) -> (r: Result<Self, DecodeError>) {
        match v {
            JsonValue::Object(fields) => {
                let payment_id = match get_opt::<String>(fields, "payment_id") {
                    Ok(x) => x,
                    Err(e) => return Err(e),
                };
                let payment_date = match get_opt::<String>(fields, "payment_date") {
                    Ok(x) => x,
                    Err(e) => return Err(e),
                };
                let method = match get_req::<PaymentMethod>(fields, "method") {
                    Ok(x) => x,
                    Err(e) => return Err(e),
                };
                let note = match get_opt::<String>(fields, "note") {
                    Ok(x) => x,
                    Err(e) => return Err(e),
                };
                let amount = match get_req::<Amount>(fields, "amount") {
                    Ok(x) => x,
                    Err(e) => return Err(e),
                };
                let shipping_info = match get_opt::<ContactInformation>(fields, "shipping_info") {
                    Ok(x) => x,
                    Err(e) => return Err(e),
                };
                Ok(RecordPaymentPayload { payment_id, payment_date, method, note, amount, shipping_info })
            },
            _ => Err(DecodeError::WrongType("object".to_owned())),
        }
    }

    proof fn lemma_round_trip(t: Self, u: Self) {
        reveal_strlit("payment_id");
        reveal_strlit("payment_date");
        reveal_strlit("method");
        reveal_strlit("note");
        reveal_strlit("amount");
        reveal_strlit("shipping_info");
        assert("payment_id"@.len() == 10);
        assert("payment_date"@.len() == 12);
        assert("method"@.len() == 6);
        assert("note"@.len() == 4);
        assert("amount"@.len() == 6);
        assert("shipping_info"@.len() == 13);
        assert("method"@[0] == 'm');
        assert("amount"@[0] == 'a');
        PaymentMethod::lemma_round_trip(t.method, u.method);
        Amount::lemma_round_trip(t.amount, u.amount);
        if let Some(x) = t.shipping_info {
            ContactInformation::lemma_round_trip(x, x);
        }
        if Self::decodes_to(t.encoding(), u) {
            if let (Some(x), Some(y)) = (t.shipping_info, u.shipping_info) {
                ContactInformation::lemma_round_trip(x, y);
            }
            assert(u.wire_fields() =~= t.wire_fields());
        }
    }
}

/// The payload for sending an invoice.
#[derive(Debug, Clone, PartialEq)]
pub struct SendInvoicePayload {
    /// One or more CC: emails to which notifications are sent.
    pub additional_recipients: Option<Vec<String>>,
    /// A note to the payer.
    pub note: Option<String>,
    /// Whether to send a copy of the email to the merchant.
    pub send_to_invoicer: Option<bool>,
    /// Whether to send a copy of the email to the recipient.
    pub send_to_recipient: Option<bool>,
    /// The subject of the notification email sent to the recipient.
    pub subject: Option<String>,
}

impl SendInvoicePayload {
    /// The fields of this value's wire document, in emission order.
    pub open spec fn wire_fields(self) -> Seq<(Seq<char>, Jv)> {
        opt_entry("additional_recipients"@, self.additional_recipients) + opt_entry(
            "note"@,
            self.note,
        ) + opt_entry("send_to_invoicer"@, self.send_to_invoicer) + opt_entry(
            "send_to_recipient"@,
            self.send_to_recipient,
        ) + opt_entry("subject"@, self.subject)
    }
}

impl WireCodec for SendInvoicePayload {
    open spec fn encoding(self) -> Jv {
        Jv::Object(self.wire_fields())
    }

    open spec fn can_decode(v: Jv) -> bool {
        match v {
            Jv::Object(fs) => {
                &&& opt_ok::<Vec<String>>(fs, "additional_recipients"@)
                &&& opt_ok::<String>(fs, "note"@)
                &&& opt_ok::<bool>(fs, "send_to_invoicer"@)
                &&& opt_ok::<bool>(fs, "send_to_recipient"@)
                &&& opt_ok::<String>(fs, "subject"@)
            },
            _ => false,
        }
    }

    open spec fn decodes_to(v: Jv, t: Self) -> bool {
        match v {
            Jv::Object(fs) => {
                &&& opt_rel::<Vec<String>>(fs, "additional_recipients"@, t.additional_recipients)
                &&& opt_rel::<String>(fs, "note"@, t.note)
                &&& opt_rel::<bool>(fs, "send_to_invoicer"@, t.send_to_invoicer)
                &&& opt_rel::<bool>(fs, "send_to_recipient"@, t.send_to_recipient)
                &&& opt_rel::<String>(fs, "subject"@, t.subject)
            },
            _ => false,
        }
    }

    fn encode(&self) -> (r: JsonValue) {
        let mut fs: Vec<(String, JsonValue)> = Vec::new();
        if let Some(x) = &self.additional_recipients {
            fs.push(("additional_recipients".to_owned(), x.encode()));
        }
        if let Some(x) = &self.note {
            fs.push(("note".to_owned(), x.encode()));
        }
        if let Some(x) = &self.send_to_invoicer {
            fs.push(("send_to_invoicer".to_owned(), x.encode()));
        }
        if let Some(x) = &self.send_to_recipient {
            fs.push(("send_to_recipient".to_owned(), x.encode()));
        }
        if let Some(x) = &self.subject {
            fs.push(("subject".to_owned(), x.encode()));
        }
        proof {
            crate::json::lemma_jv_of_fields(fs@);
            assert(jv_of_fields(fs@) =~= (*self).wire_fields());
        }
        JsonValue::Object(fs)
    }

    fn decode(v: &JsonValue) -> (r: Result<Self, DecodeError>) {
        match v {
            JsonValue::Object(fields) => {
                let additional_recipients = match get_opt::<Vec<String>>(
                    fields,
                    "additional_recipients",
                ) {
                    Ok(x) => x,
                    Err(e) => return Err(e),
                };
                let note = match get_opt::<String>(fields, "note") {
                    Ok(x) => x,
                    Err(e) => return Err(e),
                };
                let send_to_invoicer = match get_opt::<bool>(fields, "send_to_invoicer") {
                    Ok(x) => x,
                    Err(e) => return Err(e),
                };
                let send_to_recipient = match get_opt::<bool>(fields, "send_to_recipient") {
                    Ok(x) => x,
                    Err(e) => return Err(e),
                };
                let subject = match get_opt::<String>(fields, "subject") {
                    Ok(x) => x,
                    Err(e) => return Err(e),
                };
                Ok(
                    SendInvoicePayload {
                        additional_recipients,
                        note,
                        send_to_invoicer,
                        send_to_recipient,
                        subject,
                    },
                )
            },
            _ => Err(DecodeError::WrongType("object".to_owned())),
        }
    }

    proof fn lemma_round_trip(t: Self, u: Self) {
        reveal_strlit("additional_recipients");
        reveal_strlit("note");
        reveal_strlit("send_to_invoicer");
        reveal_strlit("send_to_recipient");
        reveal_strlit("subject");
        assert("additional_recipients"@.len() == 21);
        assert("note"@.len() == 4);
        assert("send_to_invoicer"@.len() == 16);
        assert("send_to_recipient"@.len() == 17);
        assert("subject"@.len() == 7);
        if let Some(x) = t.additional_recipients {
            <Vec<String> as WireCodec>::lemma_round_trip(x, x);
        }
        if Self::decodes_to(t.encoding(), u) {
            if let (Some(x), Some(y)) = (t.additional_recipients, u.additional_recipients) {
                <Vec<String> as WireCodec>::lemma_round_trip(x, y);
            }
            assert(u.wire_fields() =~= t.wire_fields());
        }
    }
}

} // verus!
