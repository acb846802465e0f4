//! Value objects shared across the orders, invoicing and tracking schemas:
//! monetary values, currency codes, addresses, phone data, shipment carriers
//! and HATEOAS links.

use vstd::prelude::*;

use crate::codec::{field_entry, get_opt, get_req, opt_entry, opt_ok, opt_rel, req_ok, req_rel,
    str_eq};
use crate::codec::{DecodeError, WireCodec};
use crate::json::{jv_of_fields, lookup, JsonValue, Jv};

verus! {

broadcast use
    crate::json::lemma_jv_of_fields_push,
    crate::json::lemma_jv_of_elems_push,
    crate::json::lemma_lookup_concat,
    crate::codec::lemma_lookup_field_entry,
    crate::codec::lemma_lookup_opt_entry,
;

/// A three-character ISO-4217 currency code: the closed set of currencies the
/// schema accepts on the wire.
#[allow(non_camel_case_types)]
#[derive(Debug, Clone, Copy, PartialEq, Eq)]
pub enum Currency {
    /// Australian dollar.
    AUD,
    /// Brazilian real.
    BRL,
    /// Canadian dollar.
    CAD,
    /// Swiss franc.
    CHF,
    /// Chinese renminbi.
    CNY,
    /// Czech koruna.
    CZK,
    /// Danish krone.
    DKK,
    /// Euro.
    EUR,
    /// Pound sterling.
    GBP,
    /// Hong Kong dollar.
    HKD,
    /// Hungarian forint.
    HUF,
    /// Israeli new shekel.
    ILS,
    /// Japanese yen.
    JPY,
    /// Mexican peso.
    MXN,
    /// Malaysian ringgit.
    MYR,
    /// Norwegian krone.
    NOK,
    /// New Zealand dollar.
    NZD,
    /// Philippine peso.
    PHP,
    /// Polish zloty.
    PLN,
    /// Russian ruble.
    RUB,
    /// Swedish krona.
    SEK,
    /// Singapore dollar.
    SGD,
    /// Thai baht.
    THB,
    /// New Taiwan dollar.
    TWD,
    /// United States dollar.
    USD,
}

impl Currency {
    /// The wire token of this currency code.
    pub open spec fn spec_token(self) -> Seq<char> {
        match self {
            Currency::AUD => "AUD"@,
            Currency::BRL => "BRL"@,
            Currency::CAD => "CAD"@,
            Currency::CHF => "CHF"@,
            Currency::CNY => "CNY"@,
            Currency::CZK => "CZK"@,
            Currency::DKK => "DKK"@,
            Currency::EUR => "EUR"@,
            Currency::GBP => "GBP"@,
            Currency::HKD => "HKD"@,
            Currency::HUF => "HUF"@,
            Currency::ILS => "ILS"@,
            Currency::JPY => "JPY"@,
            Currency::MXN => "MXN"@,
            Currency::MYR => "MYR"@,
            Currency::NOK => "NOK"@,
            Currency::NZD => "NZD"@,
            Currency::PHP => "PHP"@,
            Currency::PLN => "PLN"@,
            Currency::RUB => "RUB"@,
            Currency::SEK => "SEK"@,
            Currency::SGD => "SGD"@,
            Currency::THB => "THB"@,
            Currency::TWD => "TWD"@,
            Currency::USD => "USD"@,
        }
    }

    /// Whether `s` is one of the documented currency tokens.
    pub open spec fn spec_is_token(s: Seq<char>) -> bool {
        ||| s == "AUD"@
        ||| s == "BRL"@
        ||| s == "CAD"@
        ||| s == "CHF"@
        ||| s == "CNY"@
        ||| s == "CZK"@
        ||| s == "DKK"@
        ||| s == "EUR"@
        ||| s == "GBP"@
        ||| s == "HKD"@
        ||| s == "HUF"@
        ||| s == "ILS"@
        ||| s == "JPY"@
        ||| s == "MXN"@
        ||| s == "MYR"@
        ||| s == "NOK"@
        ||| s == "NZD"@
        ||| s == "PHP"@
        ||| s == "PLN"@
        ||| s == "RUB"@
        ||| s == "SEK"@
        ||| s == "SGD"@
        ||| s == "THB"@
        ||| s == "TWD"@
        ||| s == "USD"@
    }
}

impl WireCodec for Currency {
    open spec fn encoding(self) -> Jv {
        Jv::Str(self.spec_token())
    }

    open spec fn can_decode(v: Jv) -> bool {
        match v {
            Jv::Str(s) => Currency::spec_is_token(s),
            _ => false,
        }
    }

    open spec fn decodes_to(v: Jv, t: Self) -> bool {
        v == Jv::Str(t.spec_token())
    }

    fn encode(&self) -> (r: JsonValue) {
        let tok = match self {
            Currency::AUD => "AUD",
            Currency::BRL => "BRL",
            Currency::CAD => "CAD",
            Currency::CHF => "CHF",
            Currency::CNY => "CNY",
            Currency::CZK => "CZK",
            Currency::DKK => "DKK",
            Currency::EUR => "EUR",
            Currency::GBP => "GBP",
            Currency::HKD => "HKD",
            Currency::HUF => "HUF",
            Currency::ILS => "ILS",
            Currency::JPY => "JPY",
            Currency::MXN => "MXN",
            Currency::MYR => "MYR",
            Currency::NOK => "NOK",
            Currency::NZD => "NZD",
            Currency::PHP => "PHP",
            Currency::PLN => "PLN",
            Currency::RUB => "RUB",
            Currency::SEK => "SEK",
            Currency::SGD => "SGD",
            Currency::THB => "THB",
            Currency::TWD => "TWD",
            Currency::USD => "USD",
        };
        JsonValue::Str(tok.to_owned())
    }

    fn decode(v: &JsonValue) -> (r: Result<Self, DecodeError>)
        ensures
            match r {
                Err(DecodeError::UnknownToken(s)) => v@ == Jv::Str(s@) && !Currency::spec_is_token(
                    s@,
                ),
                Err(DecodeError::WrongType(_)) => !(v@ is Str),
                Err(DecodeError::MissingField(_)) => false,
                Ok(_) => true,
            },
    {
        match v {
            JsonValue::Str(s) => {
                let c = s.as_str();
                if str_eq(c, "AUD") {
                    Ok(Currency::AUD)
                } else if str_eq(c, "BRL") {
                    Ok(Currency::BRL)
                } else if str_eq(c, "CAD") {
                    Ok(Currency::CAD)
                } else if str_eq(c, "CHF") {
                    Ok(Currency::CHF)
                } else if str_eq(c, "CNY") {
                    Ok(Currency::CNY)
                } else if str_eq(c, "CZK") {
                    Ok(Currency::CZK)
                } else if str_eq(c, "DKK") {
                    Ok(Currency::DKK)
                } else if str_eq(c, "EUR") {
                    Ok(Currency::EUR)
                } else if str_eq(c, "GBP") {
                    Ok(Currency::GBP)
                } else if str_eq(c, "HKD") {
                    Ok(Currency::HKD)
                } else if str_eq(c, "HUF") {
                    Ok(Currency::HUF)
                } else if str_eq(c, "ILS") {
                    Ok(Currency::ILS)
                } else if str_eq(c, "JPY") {
                    Ok(Currency::JPY)
                } else if str_eq(c, "MXN") {
                    Ok(Currency::MXN)
                } else if str_eq(c, "MYR") {
                    Ok(Currency::MYR)
                } else if str_eq(c, "NOK") {
                    Ok(Currency::NOK)
                } else if str_eq(c, "NZD") {
                    Ok(Currency::NZD)
                } else if str_eq(c, "PHP") {
                    Ok(Currency::PHP)
                } else if str_eq(c, "PLN") {
                    Ok(Currency::PLN)
                } else if str_eq(c, "RUB") {
                    Ok(Currency::RUB)
                } else if str_eq(c, "SEK") {
                    Ok(Currency::SEK)
                } else if str_eq(c, "SGD") {
                    Ok(Currency::SGD)
                } else if str_eq(c, "THB") {
                    Ok(Currency::THB)
                } else if str_eq(c, "TWD") {
                    Ok(Currency::TWD)
                } else if str_eq(c, "USD") {
                    Ok(Currency::USD)
                } else {
                    Err(DecodeError::UnknownToken(s.clone()))
                }
            },
            _ => Err(DecodeError::WrongType("string".to_owned())),
        }
    }

    proof fn lemma_round_trip(t: Self, u: Self) {
    }
}

/// The phone type.
#[derive(Debug, Clone, Copy, PartialEq, Eq)]
pub enum PhoneType {
    /// A fax machine.
    Fax,
    /// A home phone.
    Home,
    /// A mobile phone.
    Mobile,
    /// Another kind of phone.
    Other,
    /// A pager.
    Pager,
}

impl PhoneType {
    /// The wire token of this phone type.
    pub open spec fn spec_token(self) -> Seq<char> {
        match self {
            PhoneType::Fax => "FAX"@,
            PhoneType::Home => "HOME"@,
            PhoneType::Mobile => "MOBILE"@,
            PhoneType::Other => "OTHER"@,
            PhoneType::Pager => "PAGER"@,
        }
    }

    /// Whether `s` is one of the documented phone-type tokens.
    pub open spec fn spec_is_token(s: Seq<char>) -> bool {
        ||| s == "FAX"@
        ||| s == "HOME"@
        ||| s == "MOBILE"@
        ||| s == "OTHER"@
        ||| s == "PAGER"@
    }
}

impl WireCodec for PhoneType {
    open spec fn encoding(self) -> Jv {
        Jv::Str(self.spec_token())
    }

    open spec fn can_decode(v: Jv) -> bool {
        match v {
            Jv::Str(s) => PhoneType::spec_is_token(s),
            _ => false,
        }
    }

    open spec fn decodes_to(v: Jv, t: Self) -> bool {
        v == Jv::Str(t.spec_token())
    }

    fn encode(&self) -> (r: JsonValue) {
        let tok = match self {
            PhoneType::Fax => "FAX",
            PhoneType::Home => "HOME",
            PhoneType::Mobile => "MOBILE",
            PhoneType::Other => "OTHER",
            PhoneType::Pager => "PAGER",
        };
        JsonValue::Str(tok.to_owned())
    }

    fn decode(v: &JsonValue) -> (r: Result<Self, DecodeError>)
        ensures
            match r {
                Err(DecodeError::UnknownToken(s)) => v@ == Jv::Str(s@)
                    && !PhoneType::spec_is_token(s@),
                Err(DecodeError::WrongType(_)) => !(v@ is Str),
                Err(DecodeError::MissingField(_)) => false,
                Ok(_) => true,
            },
    {
        match v {
            JsonValue::Str(s) => {
                let c = s.as_str();
                if str_eq(c, "FAX") {
                    Ok(PhoneType::Fax)
                } else if str_eq(c, "HOME") {
                    Ok(PhoneType::Home)
                } else if str_eq(c, "MOBILE") {
                    Ok(PhoneType::Mobile)
                } else if str_eq(c, "OTHER") {
                    Ok(PhoneType::Other)
                } else if str_eq(c, "PAGER") {
                    Ok(PhoneType::Pager)
                } else {
                    Err(DecodeError::UnknownToken(s.clone()))
                }
            },
            _ => Err(DecodeError::WrongType("string".to_owned())),
        }
    }

    proof fn lemma_round_trip(t: Self, u: Self) {
    }
}

/// The carrier for a shipment: the closed set of named couriers, with
/// `Other` as the escape for carriers outside the list (the carrier's name
/// then travels in a separate free-text field).
#[derive(Debug, Clone, Copy, PartialEq, Eq)]
pub enum ShipmentCarrier {
    /// A carrier outside this list; name it in `carrier_name_other`.
    Other,
    /// United Parcel Service.
    Ups,
    /// United States Postal Service.
    Usps,
    /// FedEx.
    Fedex,
    /// DHL Express.
    DhlExpress,
    /// TNT.
    Tnt,
    /// DPD.
    Dpd,
    /// Royal Mail.
    RoyalMail,
    /// Canada Post.
    CanadaPost,
    /// Australia Post.
    AustraliaPost,
    /// La Poste.
    LaPoste,
    /// Deutsche Post.
    DeutschePost,
    /// Japan Post.
    JapanPost,
    /// China Post.
    ChinaPost,
    /// SF Express.
    SfExpress,
}

impl ShipmentCarrier {
    /// The wire token of this carrier.
    pub open spec fn spec_token(self) -> Seq<char> {
        match self {
            ShipmentCarrier::Other => "OTHER"@,
            ShipmentCarrier::Ups => "UPS"@,
            ShipmentCarrier::Usps => "USPS"@,
            ShipmentCarrier::Fedex => "FEDEX"@,
            ShipmentCarrier::DhlExpress => "DHL_EXPRESS"@,
            ShipmentCarrier::Tnt => "TNT"@,
            ShipmentCarrier::Dpd => "DPD"@,
            ShipmentCarrier::RoyalMail => "ROYAL_MAIL"@,
            ShipmentCarrier::CanadaPost => "CANADA_POST"@,
            ShipmentCarrier::AustraliaPost => "AUSTRALIA_POST"@,
            ShipmentCarrier::LaPoste => "LA_POSTE"@,
            ShipmentCarrier::DeutschePost => "DEUTSCHE_POST"@,
            ShipmentCarrier::JapanPost => "JAPAN_POST"@,
            ShipmentCarrier::ChinaPost => "CHINA_POST"@,
            ShipmentCarrier::SfExpress => "SF_EXPRESS"@,
        }
    }

    /// Whether `s` is one of the documented carrier tokens.
    pub open spec fn spec_is_token(s: Seq<char>) -> bool {
        ||| s == "OTHER"@
        ||| s == "UPS"@
        ||| s == "USPS"@
        ||| s == "FEDEX"@
        ||| s == "DHL_EXPRESS"@
        ||| s == "TNT"@
        ||| s == "DPD"@
        ||| s == "ROYAL_MAIL"@
        ||| s == "CANADA_POST"@
        ||| s == "AUSTRALIA_POST"@
        ||| s == "LA_POSTE"@
        ||| s == "DEUTSCHE_POST"@
        ||| s == "JAPAN_POST"@
        ||| s == "CHINA_POST"@
        ||| s == "SF_EXPRESS"@
    }
}

impl ShipmentCarrier {
    /// Closure of the carrier tokens: a string is a carrier token exactly
    /// when it is the token of some carrier, so a token outside the
    /// documented closed set stands for no carrier and never decodes.
    pub proof fn lemma_token_closure(s: Seq<char>)
        ensures
            ShipmentCarrier::spec_is_token(s) <==> exists|c: ShipmentCarrier|
                c.spec_token() == s,
    {
        if ShipmentCarrier::spec_is_token(s) {
            if s == "OTHER"@ {
                assert(ShipmentCarrier::Other.spec_token() == s);
            } else if s == "UPS"@ {
                assert(ShipmentCarrier::Ups.spec_token() == s);
            } else if s == "USPS"@ {
                assert(ShipmentCarrier::Usps.spec_token() == s);
            } else if s == "FEDEX"@ {
                assert(ShipmentCarrier::Fedex.spec_token() == s);
            } else if s == "DHL_EXPRESS"@ {
                assert(ShipmentCarrier::DhlExpress.spec_token() == s);
            } else if s == "TNT"@ {
                assert(ShipmentCarrier::Tnt.spec_token() == s);
            } else if s == "DPD"@ {
                assert(ShipmentCarrier::Dpd.spec_token() == s);
            } else if s == "ROYAL_MAIL"@ {
                assert(ShipmentCarrier::RoyalMail.spec_token() == s);
            } else if s == "CANADA_POST"@ {
                assert(ShipmentCarrier::CanadaPost.spec_token() == s);
            } else if s == "AUSTRALIA_POST"@ {
                assert(ShipmentCarrier::AustraliaPost.spec_token() == s);
            } else if s == "LA_POSTE"@ {
                assert(ShipmentCarrier::LaPoste.spec_token() == s);
            } else if s == "DEUTSCHE_POST"@ {
                assert(ShipmentCarrier::DeutschePost.spec_token() == s);
            } else if s == "JAPAN_POST"@ {
                assert(ShipmentCarrier::JapanPost.spec_token() == s);
            } else if s == "CHINA_POST"@ {
                assert(ShipmentCarrier::ChinaPost.spec_token() == s);
            } else {
                assert(ShipmentCarrier::SfExpress.spec_token() == s);
            }
        }
    }
}

impl WireCodec for ShipmentCarrier {
    open spec fn encoding(self) -> Jv {
        Jv::Str(self.spec_token())
    }

    open spec fn can_decode(v: Jv) -> bool {
        match v {
            Jv::Str(s) => ShipmentCarrier::spec_is_token(s),
            _ => false,
        }
    }

    open spec fn decodes_to(v: Jv, t: Self) -> bool {
        v == Jv::Str(t.spec_token())
    }

    fn encode(&self) -> (r: JsonValue) {
        let tok = match self {
            ShipmentCarrier::Other => "OTHER",
            ShipmentCarrier::Ups => "UPS",
            ShipmentCarrier::Usps => "USPS",
            ShipmentCarrier::Fedex => "FEDEX",
            ShipmentCarrier::DhlExpress => "DHL_EXPRESS",
            ShipmentCarrier::Tnt => "TNT",
            ShipmentCarrier::Dpd => "DPD",
            ShipmentCarrier::RoyalMail => "ROYAL_MAIL",
            ShipmentCarrier::CanadaPost => "CANADA_POST",
            ShipmentCarrier::AustraliaPost => "AUSTRALIA_POST",
            ShipmentCarrier::LaPoste => "LA_POSTE",
            ShipmentCarrier::DeutschePost => "DEUTSCHE_POST",
            ShipmentCarrier::JapanPost => "JAPAN_POST",
            ShipmentCarrier::ChinaPost => "CHINA_POST",
            ShipmentCarrier::SfExpress => "SF_EXPRESS",
        };
        JsonValue::Str(tok.to_owned())
    }

    fn decode(v: &JsonValue) -> (r: Result<Self, DecodeError>)
        ensures
            match r {
                Err(DecodeError::UnknownToken(s)) => v@ == Jv::Str(s@)
                    && !ShipmentCarrier::spec_is_token(s@),
                Err(DecodeError::WrongType(_)) => !(v@ is Str),
                Err(DecodeError::MissingField(_)) => false,
                Ok(_) => true,
            },
    {
        match v {
            JsonValue::Str(s) => {
                let c = s.as_str();
                if str_eq(c, "OTHER") {
                    Ok(ShipmentCarrier::Other)
                } else if str_eq(c, "UPS") {
                    Ok(ShipmentCarrier::Ups)
                } else if str_eq(c, "USPS") {
                    Ok(ShipmentCarrier::Usps)
                } else if str_eq(c, "FEDEX") {
                    Ok(ShipmentCarrier::Fedex)
                } else if str_eq(c, "DHL_EXPRESS") {
                    Ok(ShipmentCarrier::DhlExpress)
                } else if str_eq(c, "TNT") {
                    Ok(ShipmentCarrier::Tnt)
                } else if str_eq(c, "DPD") {
                    Ok(ShipmentCarrier::Dpd)
                } else if str_eq(c, "ROYAL_MAIL") {
                    Ok(ShipmentCarrier::RoyalMail)
                } else if str_eq(c, "CANADA_POST") {
                    Ok(ShipmentCarrier::CanadaPost)
                } else if str_eq(c, "AUSTRALIA_POST") {
                    Ok(ShipmentCarrier::AustraliaPost)
                } else if str_eq(c, "LA_POSTE") {
                    Ok(ShipmentCarrier::LaPoste)
                } else if str_eq(c, "DEUTSCHE_POST") {
                    Ok(ShipmentCarrier::DeutschePost)
                } else if str_eq(c, "JAPAN_POST") {
                    Ok(ShipmentCarrier::JapanPost)
                } else if str_eq(c, "CHINA_POST") {
                    Ok(ShipmentCarrier::ChinaPost)
                } else if str_eq(c, "SF_EXPRESS") {
                    Ok(ShipmentCarrier::SfExpress)
                } else {
                    Err(DecodeError::UnknownToken(s.clone()))
                }
            },
            _ => Err(DecodeError::WrongType("string".to_owned())),
        }
    }

    proof fn lemma_round_trip(t: Self, u: Self) {
    }
}

/// An amount of money: a currency code and a decimal value carried verbatim
/// as text, so that no rounding or renormalisation can occur.
#[derive(Debug, Clone, PartialEq)]
pub struct Money {
    /// The three-character ISO-4217 currency code that identifies the currency.
    pub currency_code: Currency,
    /// The decimal value, as text: an integer for currencies that are not
    /// typically fractional, a decimal fraction otherwise.
    pub value: String,
}

impl Money {
    /// The fields of this value's wire document, in emission order.
    pub open spec fn wire_fields(self) -> Seq<(Seq<char>, Jv)> {
        field_entry("currency_code"@, self.currency_code.encoding())
            + field_entry("value"@, self.value.encoding())
    }
}

impl WireCodec for Money {
    open spec fn encoding(self) -> Jv {
        Jv::Object(self.wire_fields())
    }

    open spec fn can_decode(v: Jv) -> bool {
        match v {
            Jv::Object(fs) => req_ok::<Currency>(fs, "currency_code"@) && req_ok::<String>(
                fs,
                "value"@,
            ),
            _ => false,
        }
    }

    open spec fn decodes_to(v: Jv, t: Self) -> bool {
        match v {
            Jv::Object(fs) => req_rel::<Currency>(fs, "currency_code"@, t.currency_code)
                && req_rel::<String>(fs, "value"@, t.value),
            _ => false,
        }
    }

    fn encode(&self) -> (r: JsonValue) {
        let mut fs: Vec<(String, JsonValue)> = Vec::new();
        fs.push(("currency_code".to_owned(), self.currency_code.encode()));
        fs.push(("value".to_owned(), self.value.encode()));
        proof {
            crate::json::lemma_jv_of_fields(fs@);
            assert(jv_of_fields(fs@) =~= (*self).wire_fields());
        }
        JsonValue::Object(fs)
    }

    fn decode(v: &JsonValue) -> (r: Result<Self, DecodeError>) {
        match v {
            JsonValue::Object(fields) => {
                let currency_code = match get_req::<Currency>(fields, "currency_code") {
                    Ok(x) => x,
                    Err(e) => return Err(e),
                };
                let value = match get_req::<String>(fields, "value") {
                    Ok(x) => x,
                    Err(e) => return Err(e),
                };
                Ok(Money { currency_code, value })
            },
            _ => Err(DecodeError::WrongType("object".to_owned())),
        }
    }

    proof fn lemma_round_trip(t: Self, u: Self) {
        reveal_strlit("currency_code");
        reveal_strlit("value");
        assert("value"@.len() == 5);
        assert("currency_code"@.len() == 13);
        Currency::lemma_round_trip(t.currency_code, u.currency_code);
        if Money::decodes_to(t.encoding(), u) {
            assert(u.wire_fields() =~= t.wire_fields());
        }
    }
}

impl Currency {
    /// No two currency codes share a wire token.
    pub proof fn lemma_token_injective(a: Currency, b: Currency)
        ensures
            a.spec_token() == b.spec_token() ==> a == b,
    {
        reveal_strlit("AUD");
        reveal_strlit("BRL");
        reveal_strlit("CAD");
        reveal_strlit("CHF");
        reveal_strlit("CNY");
        reveal_strlit("CZK");
        reveal_strlit("DKK");
        reveal_strlit("EUR");
        reveal_strlit("GBP");
        reveal_strlit("HKD");
        reveal_strlit("HUF");
        reveal_strlit("ILS");
        reveal_strlit("JPY");
        reveal_strlit("MXN");
        reveal_strlit("MYR");
        reveal_strlit("NOK");
        reveal_strlit("NZD");
        reveal_strlit("PHP");
        reveal_strlit("PLN");
        reveal_strlit("RUB");
        reveal_strlit("SEK");
        reveal_strlit("SGD");
        reveal_strlit("THB");
        reveal_strlit("TWD");
        reveal_strlit("USD");
        assert("AUD"@[0] == 'A');
        assert("AUD"@[1] == 'U');
        assert("BRL"@[0] == 'B');
        assert("BRL"@[1] == 'R');
        assert("CAD"@[0] == 'C');
        assert("CAD"@[1] == 'A');
        assert("CHF"@[0] == 'C');
        assert("CHF"@[1] == 'H');
        assert("CNY"@[0] == 'C');
        assert("CNY"@[1] == 'N');
        assert("CZK"@[0] == 'C');
        assert("CZK"@[1] == 'Z');
        assert("DKK"@[0] == 'D');
        assert("DKK"@[1] == 'K');
        assert("EUR"@[0] == 'E');
        assert("EUR"@[1] == 'U');
        assert("GBP"@[0] == 'G');
        assert("GBP"@[1] == 'B');
        assert("HKD"@[0] == 'H');
        assert("HKD"@[1] == 'K');
        assert("HUF"@[0] == 'H');
        assert("HUF"@[1] == 'U');
        assert("ILS"@[0] == 'I');
        assert("ILS"@[1] == 'L');
        assert("JPY"@[0] == 'J');
        assert("JPY"@[1] == 'P');
        assert("MXN"@[0] == 'M');
        assert("MXN"@[1] == 'X');
        assert("MYR"@[0] == 'M');
        assert("MYR"@[1] == 'Y');
        assert("NOK"@[0] == 'N');
        assert("NOK"@[1] == 'O');
        assert("NZD"@[0] == 'N');
        assert("NZD"@[1] == 'Z');
        assert("PHP"@[0] == 'P');
        assert("PHP"@[1] == 'H');
        assert("PLN"@[0] == 'P');
        assert("PLN"@[1] == 'L');
        assert("RUB"@[0] == 'R');
        assert("RUB"@[1] == 'U');
        assert("SEK"@[0] == 'S');
        assert("SEK"@[1] == 'E');
        assert("SGD"@[0] == 'S');
        assert("SGD"@[1] == 'G');
        assert("THB"@[0] == 'T');
        assert("THB"@[1] == 'H');
        assert("TWD"@[0] == 'T');
        assert("TWD"@[1] == 'W');
        assert("USD"@[0] == 'U');
        assert("USD"@[1] == 'S');
    }
}

impl Money {
    /// Money fidelity: the decimal text of a monetary value and its currency
    /// code survive a round trip unchanged — no float coercion, no
    /// trailing-zero renormalisation.
    pub proof fn lemma_value_text_preserved(t: Money, u: Money)
        requires
            Money::decodes_to(t.encoding(), u),
        ensures
            u.value@ == t.value@,
            u.currency_code == t.currency_code,
    {
        reveal_strlit("currency_code");
        reveal_strlit("value");
        assert("value"@.len() == 5);
        assert("currency_code"@.len() == 13);
        Currency::lemma_token_injective(t.currency_code, u.currency_code);
    }
}

/// The Universal Product Code of an item.
#[derive(Debug, Clone, PartialEq)]
pub struct ItemUpc {
    /// The standard the code follows (its wire name is `type`).
    pub upc_type: String,
    /// The UPC of the item.
    pub code: String,
}

impl ItemUpc {
    /// The fields of this value's wire document, in emission order.
    pub open spec fn wire_fields(self) -> Seq<(Seq<char>, Jv)> {
        field_entry("type"@, self.upc_type.encoding()) + field_entry("code"@, self.code.encoding())
    }
}

impl WireCodec for ItemUpc {
    open spec fn encoding(self) -> Jv {
        Jv::Object(self.wire_fields())
    }

    open spec fn can_decode(v: Jv) -> bool {
        match v {
            Jv::Object(fs) => req_ok::<String>(fs, "type"@) && req_ok::<String>(fs, "code"@),
            _ => false,
        }
    }

    open spec fn decodes_to(v: Jv, t: Self) -> bool {
        match v {
            Jv::Object(fs) => req_rel::<String>(fs, "type"@, t.upc_type) && req_rel::<String>(
                fs,
                "code"@,
                t.code,
            ),
            _ => false,
        }
    }

    fn encode(&self) -> (r: JsonValue) {
        let mut fs: Vec<(String, JsonValue)> = Vec::new();
        fs.push(("type".to_owned(), self.upc_type.encode()));
        fs.push(("code".to_owned(), self.code.encode()));
        proof {
            crate::json::lemma_jv_of_fields(fs@);
            assert(jv_of_fields(fs@) =~= (*self).wire_fields());
        }
        JsonValue::Object(fs)
    }

    fn decode(v: &JsonValue) -> (r: Result<Self, DecodeError>) {
        match v {
            JsonValue::Object(fields) => {
                let upc_type = match get_req::<String>(fields, "type") {
                    Ok(x) => x,
                    Err(e) => return Err(e),
                };
                let code = match get_req::<String>(fields, "code") {
                    Ok(x) => x,
                    Err(e) => return Err(e),
                };
                Ok(ItemUpc { upc_type, code })
            },
            _ => Err(DecodeError::WrongType("object".to_owned())),
        }
    }

    proof fn lemma_round_trip(t: Self, u: Self) {
        reveal_strlit("type");
        reveal_strlit("code");
        assert("type"@[0] == 't');
        assert("code"@[0] == 'c');
        if ItemUpc::decodes_to(t.encoding(), u) {
            assert(u.wire_fields() =~= t.wire_fields());
        }
    }
}

/// A postal address in the schema's portable form.
#[derive(Debug, Clone, PartialEq)]
pub struct Address {
    /// The first line of the address, such as number and street.
    pub address_line_1: Option<String>,
    /// The second line of the address, such as suite or apartment number.
    pub address_line_2: Option<String>,
    /// The city, town or village.
    pub admin_area_2: Option<String>,
    /// The highest-level subdivision, such as state or province.
    pub admin_area_1: Option<String>,
    /// The postal code.
    pub postal_code: Option<String>,
    /// The two-character ISO 3166-1 country code.
    pub country_code: String,
}

impl Address {
    /// The fields of this value's wire document, in emission order.
    pub open spec fn wire_fields(self) -> Seq<(Seq<char>, Jv)> {
        opt_entry("address_line_1"@, self.address_line_1)
            + opt_entry("address_line_2"@, self.address_line_2)
            + opt_entry("admin_area_2"@, self.admin_area_2)
            + opt_entry("admin_area_1"@, self.admin_area_1)
            + opt_entry("postal_code"@, self.postal_code)
            + field_entry("country_code"@, self.country_code.encoding())
    }
}

impl WireCodec for Address {
    open spec fn encoding(self) -> Jv {
        Jv::Object(self.wire_fields())
    }

    open spec fn can_decode(v: Jv) -> bool {
        match v {
            Jv::Object(fs) => {
                &&& opt_ok::<String>(fs, "address_line_1"@)
                &&& opt_ok::<String>(fs, "address_line_2"@)
                &&& opt_ok::<String>(fs, "admin_area_2"@)
                &&& opt_ok::<String>(fs, "admin_area_1"@)
                &&& opt_ok::<String>(fs, "postal_code"@)
                &&& req_ok::<String>(fs, "country_code"@)
            },
            _ => false,
        }
    }

    open spec fn decodes_to(v: Jv, t: Self) -> bool {
        match v {
            Jv::Object(fs) => {
                &&& opt_rel::<String>(fs, "address_line_1"@, t.address_line_1)
                &&& opt_rel::<String>(fs, "address_line_2"@, t.address_line_2)
                &&& opt_rel::<String>(fs, "admin_area_2"@, t.admin_area_2)
                &&& opt_rel::<String>(fs, "admin_area_1"@, t.admin_area_1)
                &&& opt_rel::<String>(fs, "postal_code"@, t.postal_code)
                &&& req_rel::<String>(fs, "country_code"@, t.country_code)
            },
            _ => false,
        }
    }

    fn encode(&self) -> (r: JsonValue) {
        let mut fs: Vec<(String, JsonValue)> = Vec::new();
        if let Some(x) = &self.address_line_1 {
            fs.push(("address_line_1".to_owned(), x.encode()));
        }
        if let Some(x) = &self.address_line_2 {
            fs.push(("address_line_2".to_owned(), x.encode()));
        }
        if let Some(x) = &self.admin_area_2 {
            fs.push(("admin_area_2".to_owned(), x.encode()));
        }
        if let Some(x) = &self.admin_area_1 {
            fs.push(("admin_area_1".to_owned(), x.encode()));
        }
        if let Some(x) = &self.postal_code {
            fs.push(("postal_code".to_owned(), x.encode()));
        }
        fs.push(("country_code".to_owned(), self.country_code.encode()));
        proof {
            crate::json::lemma_jv_of_fields(fs@);
            assert(jv_of_fields(fs@) =~= (*self).wire_fields());
        }
        JsonValue::Object(fs)
    }

    fn decode(v: &JsonValue) -> (r: Result<Self, DecodeError>) {
        match v {
            JsonValue::Object(fields) => {
                let address_line_1 = match get_opt::<String>(fields, "address_line_1") {
                    Ok(x) => x,
                    Err(e) => return Err(e),
                };
                let address_line_2 = match get_opt::<String>(fields, "address_line_2") {
                    Ok(x) => x,
                    Err(e) => return Err(e),
                };
                let admin_area_2 = match get_opt::<String>(fields, "admin_area_2") {
                    Ok(x) => x,
                    Err(e) => return Err(e),
                };
                let admin_area_1 = match get_opt::<String>(fields, "admin_area_1") {
                    Ok(x) => x,
                    Err(e) => return Err(e),
                };
                let postal_code = match get_opt::<String>(fields, "postal_code") {
                    Ok(x) => x,
                    Err(e) => return Err(e),
                };
                let country_code = match get_req::<String>(fields, "country_code") {
                    Ok(x) => x,
                    Err(e) => return Err(e),
                };
                Ok(
                    Address {
                        address_line_1,
                        address_line_2,
                        admin_area_2,
                        admin_area_1,
                        postal_code,
                        country_code,
                    },
                )
            },
            _ => Err(DecodeError::WrongType("object".to_owned())),
        }
    }

    proof fn lemma_round_trip(t: Self, u: Self) {
        reveal_strlit("address_line_1");
        reveal_strlit("address_line_2");
        reveal_strlit("admin_area_2");
        reveal_strlit("admin_area_1");
        reveal_strlit("postal_code");
        reveal_strlit("country_code");
        assert("address_line_1"@.len() == 14);
        assert("address_line_2"@.len() == 14);
        assert("admin_area_2"@.len() == 12);
        assert("admin_area_1"@.len() == 12);
        assert("postal_code"@.len() == 11);
        assert("country_code"@.len() == 12);
        assert("address_line_1"@[13] == '1');
        assert("address_line_2"@[13] == '2');
        assert("admin_area_1"@[11] == '1');
        assert("admin_area_2"@[11] == '2');
        assert("admin_area_1"@[0] == 'a');
        assert("country_code"@[0] == 'c');
        if Address::decodes_to(t.encoding(), u) {
            assert(u.wire_fields() =~= t.wire_fields());
        }
    }
}

/// A HATEOAS link: a server-supplied URL and relation name guiding the
/// client to a related action.
#[derive(Debug, Clone, PartialEq)]
pub struct LinkDescription {
    /// The complete target URL.
    pub href: String,
    /// The link relation type, which serves as an ID for the link.
    pub rel: String,
    /// The HTTP method required to make the related call, if any.
    pub method: Option<String>,
}

impl LinkDescription {
    /// The fields of this value's wire document, in emission order.
    pub open spec fn wire_fields(self) -> Seq<(Seq<char>, Jv)> {
        field_entry("href"@, self.href.encoding()) + field_entry("rel"@, self.rel.encoding())
            + opt_entry("method"@, self.method)
    }
}

impl WireCodec for LinkDescription {
    open spec fn encoding(self) -> Jv {
        Jv::Object(self.wire_fields())
    }

    open spec fn can_decode(v: Jv) -> bool {
        match v {
            Jv::Object(fs) => {
                &&& req_ok::<String>(fs, "href"@)
                &&& req_ok::<String>(fs, "rel"@)
                &&& opt_ok::<String>(fs, "method"@)
            },
            _ => false,
        }
    }

    open spec fn decodes_to(v: Jv, t: Self) -> bool {
        match v {
            Jv::Object(fs) => {
                &&& req_rel::<String>(fs, "href"@, t.href)
                &&& req_rel::<String>(fs, "rel"@, t.rel)
                &&& opt_rel::<String>(fs, "method"@, t.method)
            },
            _ => false,
        }
    }

    fn encode(&self) -> (r: JsonValue) {
        let mut fs: Vec<(String, JsonValue)> = Vec::new();
        fs.push(("href".to_owned(), self.href.encode()));
        fs.push(("rel".to_owned(), self.rel.encode()));
        if let Some(x) = &self.method {
            fs.push(("method".to_owned(), x.encode()));
        }
        proof {
            crate::json::lemma_jv_of_fields(fs@);
            assert(jv_of_fields(fs@) =~= (*self).wire_fields());
        }
        JsonValue::Object(fs)
    }

    fn decode(v: &JsonValue) -> (r: Result<Self, DecodeError>) {
        match v {
            JsonValue::Object(fields) => {
                let href = match get_req::<String>(fields, "href") {
                    Ok(x) => x,
                    Err(e) => return Err(e),
                };
                let rel = match get_req::<String>(fields, "rel") {
                    Ok(x) => x,
                    Err(e) => return Err(e),
                };
                let method = match get_opt::<String>(fields, "method") {
                    Ok(x) => x,
                    Err(e) => return Err(e),
                };
                Ok(LinkDescription { href, rel, method })
            },
            _ => Err(DecodeError::WrongType("object".to_owned())),
        }
    }

    proof fn lemma_round_trip(t: Self, u: Self) {
        reveal_strlit("href");
        reveal_strlit("rel");
        reveal_strlit("method");
        assert("href"@.len() == 4);
        assert("rel"@.len() == 3);
        assert("method"@.len() == 6);
        if LinkDescription::decodes_to(t.encoding(), u) {
            assert(u.wire_fields() =~= t.wire_fields());
        }
    }
}

} // verus!
