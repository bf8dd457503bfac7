//! The DHL APIs that the library speaks to, and what they share: the
//! vocabulary of divisions, service types, countries and languages, the
//! shape of an address and of a failure, and the two halves of a call.
//!
//! A call is made in two halves, with the network between them. The first
//! half, `prepare` of an API, turns a request into the URL and the header of
//! an HTTP GET. The second, `receive`, turns the body of the response into
//! the typed response or an error.

use vstd::prelude::*;
use vstd::string::StringExecFns;

use crate::decode::{decode_member, Decode};
use crate::error::DhlError;
use crate::json::{document_of, parse_document, shape_error, Json};
use crate::percent::{is_kept_char, lemma_kept_text, percent_encoded};
use crate::text::str_eq;

pub mod country;
pub mod language;
pub mod location_finder;
pub mod location_finder_unified;
pub mod shipment_tracking;

pub use country::CountryCode;
pub use language::LanguageCode;

verus! {

/// The shape of a failure: what DHL answers with a 4xx or 5xx status code.
#[derive(Debug, Clone)]
pub struct ResponseNotOk {
    pub status: u32,
    pub title: String,
    pub detail: String,
}

impl Decode for ResponseNotOk {
    open spec fn accepts(value: Json) -> bool {
        &&& value is Object
        &&& u32::accepts(value.member_or_null("status"@))
        &&& String::accepts(value.member_or_null("title"@))
        &&& String::accepts(value.member_or_null("detail"@))
    }

    open spec fn renders(value: Json, decoded: ResponseNotOk) -> bool {
        &&& u32::renders(value.member_or_null("status"@), decoded.status)
        &&& String::renders(value.member_or_null("title"@), decoded.title)
        &&& String::renders(value.member_or_null("detail"@), decoded.detail)
    }

    fn decode(value: &Json) -> (decoded: Option<ResponseNotOk>) {
        if !value.is_object() {
            return None;
        }
        let status = decode_member::<u32>(value, "status")?;
        let title = decode_member::<String>(value, "title")?;
        let detail = decode_member::<String>(value, "detail")?;
        Some(ResponseNotOk { status, title, detail })
    }
}

/// DHL service division.
#[derive(Debug, Clone, Copy, PartialEq, Eq, Structural)]
pub enum Division {
    Express,
    ParcelDe,
    Ecommerce,
    Dgf,
    ParcelUk,
    PostDe,
    Sameday,
    Freight,
    ParcelNl,
    ParcelPl,
    Dsc,
}

impl Division {
    /// The name under which a division is written on the wire.
    pub open spec fn wire(self) -> Seq<char> {
        match self {
            Division::Express => "express"@,
            Division::ParcelDe => "parcel-de"@,
            Division::Ecommerce => "ecommerce"@,
            Division::Dgf => "dgf"@,
            Division::ParcelUk => "parcel-uk"@,
            Division::PostDe => "post-de"@,
            Division::Sameday => "sameday"@,
            Division::Freight => "freight"@,
            Division::ParcelNl => "parcel-nl"@,
            Division::ParcelPl => "parcel-pl"@,
            Division::Dsc => "dsc"@,
        }
    }

    /// Whether `name` is read as a division.
    pub open spec fn reads(self, name: Seq<char>) -> bool {
        name == self.wire()
    }

    /// The name under which a division is written on the wire.
    pub fn wire_name(&self) -> (name: &'static str)
        ensures
            name@ == self.wire(),
    {
        match self {
            Division::Express => "express",
            Division::ParcelDe => "parcel-de",
            Division::Ecommerce => "ecommerce",
            Division::Dgf => "dgf",
            Division::ParcelUk => "parcel-uk",
            Division::PostDe => "post-de",
            Division::Sameday => "sameday",
            Division::Freight => "freight",
            Division::ParcelNl => "parcel-nl",
            Division::ParcelPl => "parcel-pl",
            Division::Dsc => "dsc",
        }
    }

    /// Reads a name from the wire: `Some` for exactly the names that are
    /// read as a value, `None` for every other text.
    pub fn from_wire(name: &str) -> (decoded: Option<Division>)
        ensures
            match decoded {
                Some(value) => value.reads(name@),
                None => forall|value: Division| !value.reads(name@),
            },
    {
        if str_eq(name, "express") {
            Some(Division::Express)
        } else if str_eq(name, "parcel-de") {
            Some(Division::ParcelDe)
        } else if str_eq(name, "ecommerce") {
            Some(Division::Ecommerce)
        } else if str_eq(name, "dgf") {
            Some(Division::Dgf)
        } else if str_eq(name, "parcel-uk") {
            Some(Division::ParcelUk)
        } else if str_eq(name, "post-de") {
            Some(Division::PostDe)
        } else if str_eq(name, "sameday") {
            Some(Division::Sameday)
        } else if str_eq(name, "freight") {
            Some(Division::Freight)
        } else if str_eq(name, "parcel-nl") {
            Some(Division::ParcelNl)
        } else if str_eq(name, "parcel-pl") {
            Some(Division::ParcelPl)
        } else if str_eq(name, "dsc") {
            Some(Division::Dsc)
        } else {
            None
        }
    }

    /// No name is read as two different values.
    pub proof fn lemma_reads_one(a: Division, b: Division, name: Seq<char>)
        requires
            a.reads(name),
            b.reads(name),
        ensures
            a == b,
    {
        reveal_strlit("express");
        reveal_strlit("parcel-de");
        reveal_strlit("ecommerce");
        reveal_strlit("dgf");
        reveal_strlit("parcel-uk");
        reveal_strlit("post-de");
        reveal_strlit("sameday");
        reveal_strlit("freight");
        reveal_strlit("parcel-nl");
        reveal_strlit("parcel-pl");
        reveal_strlit("dsc");
        assert("express"@.len() == 7 && "express"@[1] == 'x');
        assert("parcel-de"@.len() == 9 && "parcel-de"@[1] == 'a' && "parcel-de"@[7] == 'd');
        assert("ecommerce"@.len() == 9 && "ecommerce"@[1] == 'c' && "ecommerce"@[7] == 'c');
        assert("dgf"@.len() == 3 && "dgf"@[1] == 'g');
        assert("parcel-uk"@.len() == 9 && "parcel-uk"@[1] == 'a' && "parcel-uk"@[7] == 'u');
        assert("post-de"@.len() == 7 && "post-de"@[1] == 'o');
        assert("sameday"@.len() == 7 && "sameday"@[1] == 'a');
        assert("freight"@.len() == 7 && "freight"@[1] == 'r');
        assert("parcel-nl"@.len() == 9 && "parcel-nl"@[1] == 'a' && "parcel-nl"@[7] == 'n');
        assert("parcel-pl"@.len() == 9 && "parcel-pl"@[1] == 'a' && "parcel-pl"@[7] == 'p');
        assert("dsc"@.len() == 3 && "dsc"@[1] == 's');
    }

    /// The name of each value is written into a query string as it is.
    pub proof fn lemma_wire_kept(value: Division)
        ensures
            percent_encoded(value.wire()) == value.wire(),
    {
        reveal_strlit("express");
        reveal_strlit("parcel-de");
        reveal_strlit("ecommerce");
        reveal_strlit("dgf");
        reveal_strlit("parcel-uk");
        reveal_strlit("post-de");
        reveal_strlit("sameday");
        reveal_strlit("freight");
        reveal_strlit("parcel-nl");
        reveal_strlit("parcel-pl");
        reveal_strlit("dsc");
        let name = value.wire();
        assert forall|i: int| 0 <= i < name.len() implies is_kept_char(#[trigger] name[i]) by {
            match value {
                Division::Express => {
                    assert("express"@[0] == 'e');
                    assert("express"@[1] == 'x');
                    assert("express"@[2] == 'p');
                    assert("express"@[3] == 'r');
                    assert("express"@[4] == 'e');
                    assert("express"@[5] == 's');
                    assert("express"@[6] == 's');
                },
                Division::ParcelDe => {
                    assert("parcel-de"@[0] == 'p');
                    assert("parcel-de"@[1] == 'a');
                    assert("parcel-de"@[2] == 'r');
                    assert("parcel-de"@[3] == 'c');
                    assert("parcel-de"@[4] == 'e');
                    assert("parcel-de"@[5] == 'l');
                    assert("parcel-de"@[6] == '-');
                    assert("parcel-de"@[7] == 'd');
                    assert("parcel-de"@[8] == 'e');
                },
                Division::Ecommerce => {
                    assert("ecommerce"@[0] == 'e');
                    assert("ecommerce"@[1] == 'c');
                    assert("ecommerce"@[2] == 'o');
                    assert("ecommerce"@[3] == 'm');
                    assert("ecommerce"@[4] == 'm');
                    assert("ecommerce"@[5] == 'e');
                    assert("ecommerce"@[6] == 'r');
                    assert("ecommerce"@[7] == 'c');
                    assert("ecommerce"@[8] == 'e');
                },
                Division::Dgf => {
                    assert("dgf"@[0] == 'd');
                    assert("dgf"@[1] == 'g');
                    assert("dgf"@[2] == 'f');
                },
                Division::ParcelUk => {
                    assert("parcel-uk"@[0] == 'p');
                    assert("parcel-uk"@[1] == 'a');
                    assert("parcel-uk"@[2] == 'r');
                    assert("parcel-uk"@[3] == 'c');
                    assert("parcel-uk"@[4] == 'e');
                    assert("parcel-uk"@[5] == 'l');
                    assert("parcel-uk"@[6] == '-');
                    assert("parcel-uk"@[7] == 'u');
                    assert("parcel-uk"@[8] == 'k');
                },
                Division::PostDe => {
                    assert("post-de"@[0] == 'p');
                    assert("post-de"@[1] == 'o');
                    assert("post-de"@[2] == 's');
                    assert("post-de"@[3] == 't');
                    assert("post-de"@[4] == '-');
                    assert("post-de"@[5] == 'd');
                    assert("post-de"@[6] == 'e');
                },
                Division::Sameday => {
                    assert("sameday"@[0] == 's');
                    assert("sameday"@[1] == 'a');
                    assert("sameday"@[2] == 'm');
                    assert("sameday"@[3] == 'e');
                    assert("sameday"@[4] == 'd');
                    assert("sameday"@[5] == 'a');
                    assert("sameday"@[6] == 'y');
                },
                Division::Freight => {
                    assert("freight"@[0] == 'f');
                    assert("freight"@[1] == 'r');
                    assert("freight"@[2] == 'e');
                    assert("freight"@[3] == 'i');
                    assert("freight"@[4] == 'g');
                    assert("freight"@[5] == 'h');
                    assert("freight"@[6] == 't');
                },
                Division::ParcelNl => {
                    assert("parcel-nl"@[0] == 'p');
                    assert("parcel-nl"@[1] == 'a');
                    assert("parcel-nl"@[2] == 'r');
                    assert("parcel-nl"@[3] == 'c');
                    assert("parcel-nl"@[4] == 'e');
                    assert("parcel-nl"@[5] == 'l');
                    assert("parcel-nl"@[6] == '-');
                    assert("parcel-nl"@[7] == 'n');
                    assert("parcel-nl"@[8] == 'l');
                },
                Division::ParcelPl => {
                    assert("parcel-pl"@[0] == 'p');
                    assert("parcel-pl"@[1] == 'a');
                    assert("parcel-pl"@[2] == 'r');
                    assert("parcel-pl"@[3] == 'c');
                    assert("parcel-pl"@[4] == 'e');
                    assert("parcel-pl"@[5] == 'l');
                    assert("parcel-pl"@[6] == '-');
                    assert("parcel-pl"@[7] == 'p');
                    assert("parcel-pl"@[8] == 'l');
                },
                Division::Dsc => {
                    assert("dsc"@[0] == 'd');
                    assert("dsc"@[1] == 's');
                    assert("dsc"@[2] == 'c');
                },
            }
        }
        lemma_kept_text(name);
    }
}

impl Decode for Division {
    open spec fn accepts(value: Json) -> bool {
        value matches Json::Text(name) && exists|decoded: Division| decoded.reads(name@)
    }

    open spec fn renders(value: Json, decoded: Division) -> bool {
        value matches Json::Text(name) && decoded.reads(name@)
    }

    fn decode(value: &Json) -> (decoded: Option<Division>) {
        match value {
            Json::Text(name) => Division::from_wire(name.as_str()),
            _ => None,
        }
    }
}

/// DHL service types.
///
/// Two of them reach the library under two spellings, and both are read.
#[derive(Debug, Clone, Copy, PartialEq, Eq, Structural)]
pub enum ServiceType {
    ParcelPickUp,
    ParcelDropOff,
    ExpressPickUp,
    ExpressDropOff,
    ExpressDropOffAccount,
    ExpressDropOffEasy,
    ExpressDropOffPrelabeled,
    ParcelPickUpRegistered,
    ParcelPickUpUnregistered,
    ParcelDropOffUnregistered,
    LetterService,
    Postbank,
    CashOnDelivery,
    Franking,
    CashService,
    PackagingMaterial,
    Postident,
    AgeVerification,
    HandicappedAccess,
    Parking,
}

impl ServiceType {
    /// The name under which a service type is written on the wire.
    pub open spec fn wire(self) -> Seq<char> {
        match self {
            ServiceType::ParcelPickUp => "parcel:pick-up"@,
            ServiceType::ParcelDropOff => "parcel:drop-off"@,
            ServiceType::ExpressPickUp => "xpress:pick-up"@,
            ServiceType::ExpressDropOff => "express:drop-off"@,
            ServiceType::ExpressDropOffAccount => "express:drop-off-account"@,
            ServiceType::ExpressDropOffEasy => "express:drop-off-easy"@,
            ServiceType::ExpressDropOffPrelabeled => "express:drop-off-prelabeled"@,
            ServiceType::ParcelPickUpRegistered => "parcel:pick-up-registere"@,
            ServiceType::ParcelPickUpUnregistered => "parcel:pick-up-unregistered"@,
            ServiceType::ParcelDropOffUnregistered => "parcel:drop-off-unregistered"@,
            ServiceType::LetterService => "letter-service"@,
            ServiceType::Postbank => "postbank"@,
            ServiceType::CashOnDelivery => "cash-on-delivery"@,
            ServiceType::Franking => "franking"@,
            ServiceType::CashService => "cash-service"@,
            ServiceType::PackagingMaterial => "packaging-material"@,
            ServiceType::Postident => "postident"@,
            ServiceType::AgeVerification => "age-verification"@,
            ServiceType::HandicappedAccess => "handicapped-access"@,
            ServiceType::Parking => "parking"@,
        }
    }

    /// Whether `name` is read as a service type: the name it is written with, or
    /// one of its other spellings.
    pub open spec fn reads(self, name: Seq<char>) -> bool {
        match self {
            ServiceType::ParcelPickUp => name == "parcel:pick-up"@,
            ServiceType::ParcelDropOff => name == "parcel:drop-off"@,
            ServiceType::ExpressPickUp => {
                ||| name == "xpress:pick-up"@
                ||| name == "express:pick-up"@
            },
            ServiceType::ExpressDropOff => name == "express:drop-off"@,
            ServiceType::ExpressDropOffAccount => name == "express:drop-off-account"@,
            ServiceType::ExpressDropOffEasy => name == "express:drop-off-easy"@,
            ServiceType::ExpressDropOffPrelabeled => name == "express:drop-off-prelabeled"@,
            ServiceType::ParcelPickUpRegistered => {
                ||| name == "parcel:pick-up-registere"@
                ||| name == "parcel:pick-up-registered"@
            },
            ServiceType::ParcelPickUpUnregistered => name == "parcel:pick-up-unregistered"@,
            ServiceType::ParcelDropOffUnregistered => name == "parcel:drop-off-unregistered"@,
            ServiceType::LetterService => name == "letter-service"@,
            ServiceType::Postbank => name == "postbank"@,
            ServiceType::CashOnDelivery => name == "cash-on-delivery"@,
            ServiceType::Franking => name == "franking"@,
            ServiceType::CashService => name == "cash-service"@,
            ServiceType::PackagingMaterial => name == "packaging-material"@,
            ServiceType::Postident => name == "postident"@,
            ServiceType::AgeVerification => name == "age-verification"@,
            ServiceType::HandicappedAccess => name == "handicapped-access"@,
            ServiceType::Parking => name == "parking"@,
        }
    }

    /// The name under which a service type is written on the wire.
    pub fn wire_name(&self) -> (name: &'static str)
        ensures
            name@ == self.wire(),
    {
        match self {
            ServiceType::ParcelPickUp => "parcel:pick-up",
            ServiceType::ParcelDropOff => "parcel:drop-off",
            ServiceType::ExpressPickUp => "xpress:pick-up",
            ServiceType::ExpressDropOff => "express:drop-off",
            ServiceType::ExpressDropOffAccount => "express:drop-off-account",
            ServiceType::ExpressDropOffEasy => "express:drop-off-easy",
            ServiceType::ExpressDropOffPrelabeled => "express:drop-off-prelabeled",
            ServiceType::ParcelPickUpRegistered => "parcel:pick-up-registere",
            ServiceType::ParcelPickUpUnregistered => "parcel:pick-up-unregistered",
            ServiceType::ParcelDropOffUnregistered => "parcel:drop-off-unregistered",
            ServiceType::LetterService => "letter-service",
            ServiceType::Postbank => "postbank",
            ServiceType::CashOnDelivery => "cash-on-delivery",
            ServiceType::Franking => "franking",
            ServiceType::CashService => "cash-service",
            ServiceType::PackagingMaterial => "packaging-material",
            ServiceType::Postident => "postident",
            ServiceType::AgeVerification => "age-verification",
            ServiceType::HandicappedAccess => "handicapped-access",
            ServiceType::Parking => "parking",
        }
    }

    /// Reads a name from the wire: `Some` for exactly the names that are
    /// read as a value, `None` for every other text.
    pub fn from_wire(name: &str) -> (decoded: Option<ServiceType>)
        ensures
            match decoded {
                Some(value) => value.reads(name@),
                None => forall|value: ServiceType| !value.reads(name@),
            },
    {
        if str_eq(name, "parcel:pick-up") {
            Some(ServiceType::ParcelPickUp)
        } else if str_eq(name, "parcel:drop-off") {
            Some(ServiceType::ParcelDropOff)
        } else if str_eq(name, "xpress:pick-up") {
            Some(ServiceType::ExpressPickUp)
        } else if str_eq(name, "express:pick-up") {
            Some(ServiceType::ExpressPickUp)
        } else if str_eq(name, "express:drop-off") {
            Some(ServiceType::ExpressDropOff)
        } else if str_eq(name, "express:drop-off-account") {
            Some(ServiceType::ExpressDropOffAccount)
        } else if str_eq(name, "express:drop-off-easy") {
            Some(ServiceType::ExpressDropOffEasy)
        } else if str_eq(name, "express:drop-off-prelabeled") {
            Some(ServiceType::ExpressDropOffPrelabeled)
        } else if str_eq(name, "parcel:pick-up-registere") {
            Some(ServiceType::ParcelPickUpRegistered)
        } else if str_eq(name, "parcel:pick-up-registered") {
            Some(ServiceType::ParcelPickUpRegistered)
        } else if str_eq(name, "parcel:pick-up-unregistered") {
            Some(ServiceType::ParcelPickUpUnregistered)
        } else if str_eq(name, "parcel:drop-off-unregistered") {
            Some(ServiceType::ParcelDropOffUnregistered)
        } else if str_eq(name, "letter-service") {
            Some(ServiceType::LetterService)
        } else if str_eq(name, "postbank") {
            Some(ServiceType::Postbank)
        } else if str_eq(name, "cash-on-delivery") {
            Some(ServiceType::CashOnDelivery)
        } else if str_eq(name, "franking") {
            Some(ServiceType::Franking)
        } else if str_eq(name, "cash-service") {
            Some(ServiceType::CashService)
        } else if str_eq(name, "packaging-material") {
            Some(ServiceType::PackagingMaterial)
        } else if str_eq(name, "postident") {
            Some(ServiceType::Postident)
        } else if str_eq(name, "age-verification") {
            Some(ServiceType::AgeVerification)
        } else if str_eq(name, "handicapped-access") {
            Some(ServiceType::HandicappedAccess)
        } else if str_eq(name, "parking") {
            Some(ServiceType::Parking)
        } else {
            None
        }
    }

    /// No name is read as two different values.
    pub proof fn lemma_reads_one(a: ServiceType, b: ServiceType, name: Seq<char>)
        requires
            a.reads(name),
            b.reads(name),
        ensures
            a == b,
    {
        reveal_strlit("parcel:pick-up");
        reveal_strlit("parcel:drop-off");
        reveal_strlit("xpress:pick-up");
        reveal_strlit("express:pick-up");
        reveal_strlit("express:drop-off");
        reveal_strlit("express:drop-off-account");
        reveal_strlit("express:drop-off-easy");
        reveal_strlit("express:drop-off-prelabeled");
        reveal_strlit("parcel:pick-up-registere");
        reveal_strlit("parcel:pick-up-registered");
        reveal_strlit("parcel:pick-up-unregistered");
        reveal_strlit("parcel:drop-off-unregistered");
        reveal_strlit("letter-service");
        reveal_strlit("postbank");
        reveal_strlit("cash-on-delivery");
        reveal_strlit("franking");
        reveal_strlit("cash-service");
        reveal_strlit("packaging-material");
        reveal_strlit("postident");
        reveal_strlit("age-verification");
        reveal_strlit("handicapped-access");
        reveal_strlit("parking");
        assert("parcel:pick-up"@.len() == 14 && "parcel:pick-up"@[0] == 'p');
        assert("parcel:drop-off"@.len() == 15 && "parcel:drop-off"@[0] == 'p');
        assert("xpress:pick-up"@.len() == 14 && "xpress:pick-up"@[0] == 'x');
        assert("express:pick-up"@.len() == 15 && "express:pick-up"@[0] == 'e');
        assert("express:drop-off"@.len() == 16 && "express:drop-off"@[0] == 'e');
        assert("express:drop-off-account"@.len() == 24 && "express:drop-off-account"@[0] == 'e');
        assert("express:drop-off-easy"@.len() == 21 && "express:drop-off-easy"@[0] == 'e');
        assert({
            &&& "express:drop-off-prelabeled"@.len() == 27
            &&& "express:drop-off-prelabeled"@[0] == 'e'
        });
        assert("parcel:pick-up-registere"@.len() == 24 && "parcel:pick-up-registere"@[0] == 'p');
        assert("parcel:pick-up-registered"@.len() == 25 && "parcel:pick-up-registered"@[0] == 'p');
        assert({
            &&& "parcel:pick-up-unregistered"@.len() == 27
            &&& "parcel:pick-up-unregistered"@[0] == 'p'
        });
        assert({
            &&& "parcel:drop-off-unregistered"@.len() == 28
            &&& "parcel:drop-off-unregistered"@[0] == 'p'
        });
        assert("letter-service"@.len() == 14 && "letter-service"@[0] == 'l');
        assert("postbank"@.len() == 8 && "postbank"@[0] == 'p');
        assert("cash-on-delivery"@.len() == 16 && "cash-on-delivery"@[0] == 'c');
        assert("franking"@.len() == 8 && "franking"@[0] == 'f');
        assert("cash-service"@.len() == 12 && "cash-service"@[0] == 'c');
        assert("packaging-material"@.len() == 18 && "packaging-material"@[0] == 'p');
        assert("postident"@.len() == 9 && "postident"@[0] == 'p');
        assert("age-verification"@.len() == 16 && "age-verification"@[0] == 'a');
        assert("handicapped-access"@.len() == 18 && "handicapped-access"@[0] == 'h');
        assert("parking"@.len() == 7 && "parking"@[0] == 'p');
    }

    /// The name that a value is written with is read as that value.
    pub proof fn lemma_wire_reads(value: ServiceType)
        ensures
            value.reads(value.wire()),
    {
    }

    /// The name of each value is written into a query string as it is.
    pub proof fn lemma_wire_kept(value: ServiceType)
        ensures
            percent_encoded(value.wire()) == value.wire(),
    {
        reveal_strlit("parcel:pick-up");
        reveal_strlit("parcel:drop-off");
        reveal_strlit("xpress:pick-up");
        reveal_strlit("express:drop-off");
        reveal_strlit("express:drop-off-account");
        reveal_strlit("express:drop-off-easy");
        reveal_strlit("express:drop-off-prelabeled");
        reveal_strlit("parcel:pick-up-registere");
        reveal_strlit("parcel:pick-up-unregistered");
        reveal_strlit("parcel:drop-off-unregistered");
        reveal_strlit("letter-service");
        reveal_strlit("postbank");
        reveal_strlit("cash-on-delivery");
        reveal_strlit("franking");
        reveal_strlit("cash-service");
        reveal_strlit("packaging-material");
        reveal_strlit("postident");
        reveal_strlit("age-verification");
        reveal_strlit("handicapped-access");
        reveal_strlit("parking");
        let name = value.wire();
        assert forall|i: int| 0 <= i < name.len() implies is_kept_char(#[trigger] name[i]) by {
            match value {
                ServiceType::ParcelPickUp => {
                    assert("parcel:pick-up"@[0] == 'p');
                    assert("parcel:pick-up"@[1] == 'a');
                    assert("parcel:pick-up"@[2] == 'r');
                    assert("parcel:pick-up"@[3] == 'c');
                    assert("parcel:pick-up"@[4] == 'e');
                    assert("parcel:pick-up"@[5] == 'l');
                    assert("parcel:pick-up"@[6] == ':');
                    assert("parcel:pick-up"@[7] == 'p');
                    assert("parcel:pick-up"@[8] == 'i');
                    assert("parcel:pick-up"@[9] == 'c');
                    assert("parcel:pick-up"@[10] == 'k');
                    assert("parcel:pick-up"@[11] == '-');
                    assert("parcel:pick-up"@[12] == 'u');
                    assert("parcel:pick-up"@[13] == 'p');
                },
                ServiceType::ParcelDropOff => {
                    assert("parcel:drop-off"@[0] == 'p');
                    assert("parcel:drop-off"@[1] == 'a');
                    assert("parcel:drop-off"@[2] == 'r');
                    assert("parcel:drop-off"@[3] == 'c');
                    assert("parcel:drop-off"@[4] == 'e');
                    assert("parcel:drop-off"@[5] == 'l');
                    assert("parcel:drop-off"@[6] == ':');
                    assert("parcel:drop-off"@[7] == 'd');
                    assert("parcel:drop-off"@[8] == 'r');
                    assert("parcel:drop-off"@[9] == 'o');
                    assert("parcel:drop-off"@[10] == 'p');
                    assert("parcel:drop-off"@[11] == '-');
                    assert("parcel:drop-off"@[12] == 'o');
                    assert("parcel:drop-off"@[13] == 'f');
                    assert("parcel:drop-off"@[14] == 'f');
                },
                ServiceType::ExpressPickUp => {
                    assert("xpress:pick-up"@[0] == 'x');
                    assert("xpress:pick-up"@[1] == 'p');
                    assert("xpress:pick-up"@[2] == 'r');
                    assert("xpress:pick-up"@[3] == 'e');
                    assert("xpress:pick-up"@[4] == 's');
                    assert("xpress:pick-up"@[5] == 's');
                    assert("xpress:pick-up"@[6] == ':');
                    assert("xpress:pick-up"@[7] == 'p');
                    assert("xpress:pick-up"@[8] == 'i');
                    assert("xpress:pick-up"@[9] == 'c');
                    assert("xpress:pick-up"@[10] == 'k');
                    assert("xpress:pick-up"@[11] == '-');
                    assert("xpress:pick-up"@[12] == 'u');
                    assert("xpress:pick-up"@[13] == 'p');
                },
                ServiceType::ExpressDropOff => {
                    assert("express:drop-off"@[0] == 'e');
                    assert("express:drop-off"@[1] == 'x');
                    assert("express:drop-off"@[2] == 'p');
                    assert("express:drop-off"@[3] == 'r');
                    assert("express:drop-off"@[4] == 'e');
                    assert("express:drop-off"@[5] == 's');
                    assert("express:drop-off"@[6] == 's');
                    assert("express:drop-off"@[7] == ':');
                    assert("express:drop-off"@[8] == 'd');
                    assert("express:drop-off"@[9] == 'r');
                    assert("express:drop-off"@[10] == 'o');
                    assert("express:drop-off"@[11] == 'p');
                    assert("express:drop-off"@[12] == '-');
                    assert("express:drop-off"@[13] == 'o');
                    assert("express:drop-off"@[14] == 'f');
                    assert("express:drop-off"@[15] == 'f');
                },
                ServiceType::ExpressDropOffAccount => {
                    assert("express:drop-off-account"@[0] == 'e');
                    assert("express:drop-off-account"@[1] == 'x');
                    assert("express:drop-off-account"@[2] == 'p');
                    assert("express:drop-off-account"@[3] == 'r');
                    assert("express:drop-off-account"@[4] == 'e');
                    assert("express:drop-off-account"@[5] == 's');
                    assert("express:drop-off-account"@[6] == 's');
                    assert("express:drop-off-account"@[7] == ':');
                    assert("express:drop-off-account"@[8] == 'd');
                    assert("express:drop-off-account"@[9] == 'r');
                    assert("express:drop-off-account"@[10] == 'o');
                    assert("express:drop-off-account"@[11] == 'p');
                    assert("express:drop-off-account"@[12] == '-');
                    assert("express:drop-off-account"@[13] == 'o');
                    assert("express:drop-off-account"@[14] == 'f');
                    assert("express:drop-off-account"@[15] == 'f');
                    assert("express:drop-off-account"@[16] == '-');
                    assert("express:drop-off-account"@[17] == 'a');
                    assert("express:drop-off-account"@[18] == 'c');
                    assert("express:drop-off-account"@[19] == 'c');
                    assert("express:drop-off-account"@[20] == 'o');
                    assert("express:drop-off-account"@[21] == 'u');
                    assert("express:drop-off-account"@[22] == 'n');
                    assert("express:drop-off-account"@[23] == 't');
                },
                ServiceType::ExpressDropOffEasy => {
                    assert("express:drop-off-easy"@[0] == 'e');
                    assert("express:drop-off-easy"@[1] == 'x');
                    assert("express:drop-off-easy"@[2] == 'p');
                    assert("express:drop-off-easy"@[3] == 'r');
                    assert("express:drop-off-easy"@[4] == 'e');
                    assert("express:drop-off-easy"@[5] == 's');
                    assert("express:drop-off-easy"@[6] == 's');
                    assert("express:drop-off-easy"@[7] == ':');
                    assert("express:drop-off-easy"@[8] == 'd');
                    assert("express:drop-off-easy"@[9] == 'r');
                    assert("express:drop-off-easy"@[10] == 'o');
                    assert("express:drop-off-easy"@[11] == 'p');
                    assert("express:drop-off-easy"@[12] == '-');
                    assert("express:drop-off-easy"@[13] == 'o');
                    assert("express:drop-off-easy"@[14] == 'f');
                    assert("express:drop-off-easy"@[15] == 'f');
                    assert("express:drop-off-easy"@[16] == '-');
                    assert("express:drop-off-easy"@[17] == 'e');
                    assert("express:drop-off-easy"@[18] == 'a');
                    assert("express:drop-off-easy"@[19] == 's');
                    assert("express:drop-off-easy"@[20] == 'y');
                },
                ServiceType::ExpressDropOffPrelabeled => {
                    assert("express:drop-off-prelabeled"@[0] == 'e');
                    assert("express:drop-off-prelabeled"@[1] == 'x');
                    assert("express:drop-off-prelabeled"@[2] == 'p');
                    assert("express:drop-off-prelabeled"@[3] == 'r');
                    assert("express:drop-off-prelabeled"@[4] == 'e');
                    assert("express:drop-off-prelabeled"@[5] == 's');
                    assert("express:drop-off-prelabeled"@[6] == 's');
                    assert("express:drop-off-prelabeled"@[7] == ':');
                    assert("express:drop-off-prelabeled"@[8] == 'd');
                    assert("express:drop-off-prelabeled"@[9] == 'r');
                    assert("express:drop-off-prelabeled"@[10] == 'o');
                    assert("express:drop-off-prelabeled"@[11] == 'p');
                    assert("express:drop-off-prelabeled"@[12] == '-');
                    assert("express:drop-off-prelabeled"@[13] == 'o');
                    assert("express:drop-off-prelabeled"@[14] == 'f');
                    assert("express:drop-off-prelabeled"@[15] == 'f');
                    assert("express:drop-off-prelabeled"@[16] == '-');
                    assert("express:drop-off-prelabeled"@[17] == 'p');
                    assert("express:drop-off-prelabeled"@[18] == 'r');
                    assert("express:drop-off-prelabeled"@[19] == 'e');
                    assert("express:drop-off-prelabeled"@[20] == 'l');
                    assert("express:drop-off-prelabeled"@[21] == 'a');
                    assert("express:drop-off-prelabeled"@[22] == 'b');
                    assert("express:drop-off-prelabeled"@[23] == 'e');
                    assert("express:drop-off-prelabeled"@[24] == 'l');
                    assert("express:drop-off-prelabeled"@[25] == 'e');
                    assert("express:drop-off-prelabeled"@[26] == 'd');
                },
                ServiceType::ParcelPickUpRegistered => {
                    assert("parcel:pick-up-registere"@[0] == 'p');
                    assert("parcel:pick-up-registere"@[1] == 'a');
                    assert("parcel:pick-up-registere"@[2] == 'r');
                    assert("parcel:pick-up-registere"@[3] == 'c');
                    assert("parcel:pick-up-registere"@[4] == 'e');
                    assert("parcel:pick-up-registere"@[5] == 'l');
                    assert("parcel:pick-up-registere"@[6] == ':');
                    assert("parcel:pick-up-registere"@[7] == 'p');
                    assert("parcel:pick-up-registere"@[8] == 'i');
                    assert("parcel:pick-up-registere"@[9] == 'c');
                    assert("parcel:pick-up-registere"@[10] == 'k');
                    assert("parcel:pick-up-registere"@[11] == '-');
                    assert("parcel:pick-up-registere"@[12] == 'u');
                    assert("parcel:pick-up-registere"@[13] == 'p');
                    assert("parcel:pick-up-registere"@[14] == '-');
                    assert("parcel:pick-up-registere"@[15] == 'r');
                    assert("parcel:pick-up-registere"@[16] == 'e');
                    assert("parcel:pick-up-registere"@[17] == 'g');
                    assert("parcel:pick-up-registere"@[18] == 'i');
                    assert("parcel:pick-up-registere"@[19] == 's');
                    assert("parcel:pick-up-registere"@[20] == 't');
                    assert("parcel:pick-up-registere"@[21] == 'e');
                    assert("parcel:pick-up-registere"@[22] == 'r');
                    assert("parcel:pick-up-registere"@[23] == 'e');
                },
                ServiceType::ParcelPickUpUnregistered => {
                    assert("parcel:pick-up-unregistered"@[0] == 'p');
                    assert("parcel:pick-up-unregistered"@[1] == 'a');
                    assert("parcel:pick-up-unregistered"@[2] == 'r');
                    assert("parcel:pick-up-unregistered"@[3] == 'c');
                    assert("parcel:pick-up-unregistered"@[4] == 'e');
                    assert("parcel:pick-up-unregistered"@[5] == 'l');
                    assert("parcel:pick-up-unregistered"@[6] == ':');
                    assert("parcel:pick-up-unregistered"@[7] == 'p');
                    assert("parcel:pick-up-unregistered"@[8] == 'i');
                    assert("parcel:pick-up-unregistered"@[9] == 'c');
                    assert("parcel:pick-up-unregistered"@[10] == 'k');
                    assert("parcel:pick-up-unregistered"@[11] == '-');
                    assert("parcel:pick-up-unregistered"@[12] == 'u');
                    assert("parcel:pick-up-unregistered"@[13] == 'p');
                    assert("parcel:pick-up-unregistered"@[14] == '-');
                    assert("parcel:pick-up-unregistered"@[15] == 'u');
                    assert("parcel:pick-up-unregistered"@[16] == 'n');
                    assert("parcel:pick-up-unregistered"@[17] == 'r');
                    assert("parcel:pick-up-unregistered"@[18] == 'e');
                    assert("parcel:pick-up-unregistered"@[19] == 'g');
                    assert("parcel:pick-up-unregistered"@[20] == 'i');
                    assert("parcel:pick-up-unregistered"@[21] == 's');
                    assert("parcel:pick-up-unregistered"@[22] == 't');
                    assert("parcel:pick-up-unregistered"@[23] == 'e');
                    assert("parcel:pick-up-unregistered"@[24] == 'r');
                    assert("parcel:pick-up-unregistered"@[25] == 'e');
                    assert("parcel:pick-up-unregistered"@[26] == 'd');
                },
                ServiceType::ParcelDropOffUnregistered => {
                    assert("parcel:drop-off-unregistered"@[0] == 'p');
                    assert("parcel:drop-off-unregistered"@[1] == 'a');
                    assert("parcel:drop-off-unregistered"@[2] == 'r');
                    assert("parcel:drop-off-unregistered"@[3] == 'c');
                    assert("parcel:drop-off-unregistered"@[4] == 'e');
                    assert("parcel:drop-off-unregistered"@[5] == 'l');
                    assert("parcel:drop-off-unregistered"@[6] == ':');
                    assert("parcel:drop-off-unregistered"@[7] == 'd');
                    assert("parcel:drop-off-unregistered"@[8] == 'r');
                    assert("parcel:drop-off-unregistered"@[9] == 'o');
                    assert("parcel:drop-off-unregistered"@[10] == 'p');
                    assert("parcel:drop-off-unregistered"@[11] == '-');
                    assert("parcel:drop-off-unregistered"@[12] == 'o');
                    assert("parcel:drop-off-unregistered"@[13] == 'f');
                    assert("parcel:drop-off-unregistered"@[14] == 'f');
                    assert("parcel:drop-off-unregistered"@[15] == '-');
                    assert("parcel:drop-off-unregistered"@[16] == 'u');
                    assert("parcel:drop-off-unregistered"@[17] == 'n');
                    assert("parcel:drop-off-unregistered"@[18] == 'r');
                    assert("parcel:drop-off-unregistered"@[19] == 'e');
                    assert("parcel:drop-off-unregistered"@[20] == 'g');
                    assert("parcel:drop-off-unregistered"@[21] == 'i');
                    assert("parcel:drop-off-unregistered"@[22] == 's');
                    assert("parcel:drop-off-unregistered"@[23] == 't');
                    assert("parcel:drop-off-unregistered"@[24] == 'e');
                    assert("parcel:drop-off-unregistered"@[25] == 'r');
                    assert("parcel:drop-off-unregistered"@[26] == 'e');
                    assert("parcel:drop-off-unregistered"@[27] == 'd');
                },
                ServiceType::LetterService => {
                    assert("letter-service"@[0] == 'l');
                    assert("letter-service"@[1] == 'e');
                    assert("letter-service"@[2] == 't');
                    assert("letter-service"@[3] == 't');
                    assert("letter-service"@[4] == 'e');
                    assert("letter-service"@[5] == 'r');
                    assert("letter-service"@[6] == '-');
                    assert("letter-service"@[7] == 's');
                    assert("letter-service"@[8] == 'e');
                    assert("letter-service"@[9] == 'r');
                    assert("letter-service"@[10] == 'v');
                    assert("letter-service"@[11] == 'i');
                    assert("letter-service"@[12] == 'c');
                    assert("letter-service"@[13] == 'e');
                },
                ServiceType::Postbank => {
                    assert("postbank"@[0] == 'p');
                    assert("postbank"@[1] == 'o');
                    assert("postbank"@[2] == 's');
                    assert("postbank"@[3] == 't');
                    assert("postbank"@[4] == 'b');
                    assert("postbank"@[5] == 'a');
                    assert("postbank"@[6] == 'n');
                    assert("postbank"@[7] == 'k');
                },
                ServiceType::CashOnDelivery => {
                    assert("cash-on-delivery"@[0] == 'c');
                    assert("cash-on-delivery"@[1] == 'a');
                    assert("cash-on-delivery"@[2] == 's');
                    assert("cash-on-delivery"@[3] == 'h');
                    assert("cash-on-delivery"@[4] == '-');
                    assert("cash-on-delivery"@[5] == 'o');
                    assert("cash-on-delivery"@[6] == 'n');
                    assert("cash-on-delivery"@[7] == '-');
                    assert("cash-on-delivery"@[8] == 'd');
                    assert("cash-on-delivery"@[9] == 'e');
                    assert("cash-on-delivery"@[10] == 'l');
                    assert("cash-on-delivery"@[11] == 'i');
                    assert("cash-on-delivery"@[12] == 'v');
                    assert("cash-on-delivery"@[13] == 'e');
                    assert("cash-on-delivery"@[14] == 'r');
                    assert("cash-on-delivery"@[15] == 'y');
                },
                ServiceType::Franking => {
                    assert("franking"@[0] == 'f');
                    assert("franking"@[1] == 'r');
                    assert("franking"@[2] == 'a');
                    assert("franking"@[3] == 'n');
                    assert("franking"@[4] == 'k');
                    assert("franking"@[5] == 'i');
                    assert("franking"@[6] == 'n');
                    assert("franking"@[7] == 'g');
                },
                ServiceType::CashService => {
                    assert("cash-service"@[0] == 'c');
                    assert("cash-service"@[1] == 'a');
                    assert("cash-service"@[2] == 's');
                    assert("cash-service"@[3] == 'h');
                    assert("cash-service"@[4] == '-');
                    assert("cash-service"@[5] == 's');
                    assert("cash-service"@[6] == 'e');
                    assert("cash-service"@[7] == 'r');
                    assert("cash-service"@[8] == 'v');
                    assert("cash-service"@[9] == 'i');
                    assert("cash-service"@[10] == 'c');
                    assert("cash-service"@[11] == 'e');
                },
                ServiceType::PackagingMaterial => {
                    assert("packaging-material"@[0] == 'p');
                    assert("packaging-material"@[1] == 'a');
                    assert("packaging-material"@[2] == 'c');
                    assert("packaging-material"@[3] == 'k');
                    assert("packaging-material"@[4] == 'a');
                    assert("packaging-material"@[5] == 'g');
                    assert("packaging-material"@[6] == 'i');
                    assert("packaging-material"@[7] == 'n');
                    assert("packaging-material"@[8] == 'g');
                    assert("packaging-material"@[9] == '-');
                    assert("packaging-material"@[10] == 'm');
                    assert("packaging-material"@[11] == 'a');
                    assert("packaging-material"@[12] == 't');
                    assert("packaging-material"@[13] == 'e');
                    assert("packaging-material"@[14] == 'r');
                    assert("packaging-material"@[15] == 'i');
                    assert("packaging-material"@[16] == 'a');
                    assert("packaging-material"@[17] == 'l');
                },
                ServiceType::Postident => {
                    assert("postident"@[0] == 'p');
                    assert("postident"@[1] == 'o');
                    assert("postident"@[2] == 's');
                    assert("postident"@[3] == 't');
                    assert("postident"@[4] == 'i');
                    assert("postident"@[5] == 'd');
                    assert("postident"@[6] == 'e');
                    assert("postident"@[7] == 'n');
                    assert("postident"@[8] == 't');
                },
                ServiceType::AgeVerification => {
                    assert("age-verification"@[0] == 'a');
                    assert("age-verification"@[1] == 'g');
                    assert("age-verification"@[2] == 'e');
                    assert("age-verification"@[3] == '-');
                    assert("age-verification"@[4] == 'v');
                    assert("age-verification"@[5] == 'e');
                    assert("age-verification"@[6] == 'r');
                    assert("age-verification"@[7] == 'i');
                    assert("age-verification"@[8] == 'f');
                    assert("age-verification"@[9] == 'i');
                    assert("age-verification"@[10] == 'c');
                    assert("age-verification"@[11] == 'a');
                    assert("age-verification"@[12] == 't');
                    assert("age-verification"@[13] == 'i');
                    assert("age-verification"@[14] == 'o');
                    assert("age-verification"@[15] == 'n');
                },
                ServiceType::HandicappedAccess => {
                    assert("handicapped-access"@[0] == 'h');
                    assert("handicapped-access"@[1] == 'a');
                    assert("handicapped-access"@[2] == 'n');
                    assert("handicapped-access"@[3] == 'd');
                    assert("handicapped-access"@[4] == 'i');
                    assert("handicapped-access"@[5] == 'c');
                    assert("handicapped-access"@[6] == 'a');
                    assert("handicapped-access"@[7] == 'p');
                    assert("handicapped-access"@[8] == 'p');
                    assert("handicapped-access"@[9] == 'e');
                    assert("handicapped-access"@[10] == 'd');
                    assert("handicapped-access"@[11] == '-');
                    assert("handicapped-access"@[12] == 'a');
                    assert("handicapped-access"@[13] == 'c');
                    assert("handicapped-access"@[14] == 'c');
                    assert("handicapped-access"@[15] == 'e');
                    assert("handicapped-access"@[16] == 's');
                    assert("handicapped-access"@[17] == 's');
                },
                ServiceType::Parking => {
                    assert("parking"@[0] == 'p');
                    assert("parking"@[1] == 'a');
                    assert("parking"@[2] == 'r');
                    assert("parking"@[3] == 'k');
                    assert("parking"@[4] == 'i');
                    assert("parking"@[5] == 'n');
                    assert("parking"@[6] == 'g');
                },
            }
        }
        lemma_kept_text(name);
    }
}

impl Decode for ServiceType {
    open spec fn accepts(value: Json) -> bool {
        value matches Json::Text(name) && exists|decoded: ServiceType| decoded.reads(name@)
    }

    open spec fn renders(value: Json, decoded: ServiceType) -> bool {
        value matches Json::Text(name) && decoded.reads(name@)
    }

    fn decode(value: &Json) -> (decoded: Option<ServiceType>) {
        match value {
            Json::Text(name) => ServiceType::from_wire(name.as_str()),
            _ => None,
        }
    }
}

/// Address information of a place or of a stop on a route.
#[derive(Debug, Clone)]
pub struct Address {
    pub country_code: Option<String>,
    pub postal_code: Option<String>,
    pub address_locality: Option<String>,
    pub street_address: Option<String>,
}

impl Decode for Address {
    open spec fn accepts(value: Json) -> bool {
        &&& value is Object
        &&& Option::<String>::accepts(value.member_or_null("countryCode"@))
        &&& Option::<String>::accepts(value.member_or_null("postalCode"@))
        &&& Option::<String>::accepts(value.member_or_null("addressLocality"@))
        &&& Option::<String>::accepts(value.member_or_null("streetAddress"@))
    }

    open spec fn renders(value: Json, decoded: Address) -> bool {
        &&& Option::<String>::renders(value.member_or_null("countryCode"@), decoded.country_code)
        &&& Option::<String>::renders(value.member_or_null("postalCode"@), decoded.postal_code)
        &&& Option::<String>::renders(
            value.member_or_null("addressLocality"@),
            decoded.address_locality,
        )
        &&& Option::<String>::renders(
            value.member_or_null("streetAddress"@),
            decoded.street_address,
        )
    }

    fn decode(value: &Json) -> (decoded: Option<Address>) {
        if !value.is_object() {
            return None;
        }
        let country_code = decode_member::<Option<String>>(value, "countryCode")?;
        let postal_code = decode_member::<Option<String>>(value, "postalCode")?;
        let address_locality = decode_member::<Option<String>>(value, "addressLocality")?;
        let street_address = decode_member::<Option<String>>(value, "streetAddress")?;
        Some(Address { country_code, postal_code, address_locality, street_address })
    }
}

/// The name of the header that carries the API key.
pub const API_KEY_HEADER: &'static str = "DHL-API-Key";

/// An HTTP GET that is ready to be sent: the URL, and the API key that goes
/// into the header `DHL-API-Key`.
#[derive(Debug, Clone)]
pub struct HttpGet {
    pub url: String,
    pub api_key: String,
}

/// What the first half of a call comes to. Without an API key nothing is
/// sent: the outcome is `MissingCredentials`, whatever the request. With a
/// key the outcome is the request's URL together with the key, or the error
/// for which the request has no URL.
pub open spec fn prepared(
    api_key: Seq<char>,
    url: Option<Seq<char>>,
    outcome: Result<HttpGet, DhlError>,
) -> bool {
    if api_key.len() == 0 {
        outcome matches Err(DhlError::MissingCredentials(_))
    } else {
        match url {
            Some(text) => outcome matches Ok(get) && get.url@ == text && get.api_key@ == api_key,
            None => outcome is Err,
        }
    }
}

/// The error for a call on the API named `api` without a key.
pub fn missing_credentials(api: &str) -> (error: DhlError)
    ensures
        error matches DhlError::MissingCredentials(message) && message@
            == "no API key is configured for the "@ + api@,
{
    let mut message = String::from_str("no API key is configured for the ");
    message.append(api);
    DhlError::MissingCredentials(message)
}

/// What the second half of a call comes to.
///
/// The body is first held against the shape of a failure. A body of that
/// shape is a failure of the remote API and gives `ResponseNotOk` with its
/// status, title and detail. Any other body is read as the response; one
/// that is no JSON document, or not of the shape of the response, gives
/// `Serde`.
pub open spec fn classified<R: Decode>(
    document: Option<Json>,
    outcome: Result<R, DhlError>,
) -> bool {
    match document {
        None => outcome matches Err(DhlError::Serde(_)),
        Some(value) => {
            if ResponseNotOk::accepts(value) {
                outcome matches Err(DhlError::ResponseNotOk { status, title, detail })
                    && ResponseNotOk::renders(value, ResponseNotOk { status, title, detail })
            } else if R::accepts(value) {
                outcome matches Ok(decoded) && R::renders(value, decoded)
            } else {
                outcome matches Err(DhlError::Serde(_))
            }
        },
    }
}

/// Classifies a parsed response body: a failure of the remote API, the
/// response, or a body that cannot be read. An error of the parser is
/// handed on as `Serde`.
pub fn classify<R: Decode>(document: Result<Json, serde_json::Error>) -> (outcome: Result<
    R,
    DhlError,
>)
    ensures
        match document {
            Ok(value) => classified::<R>(Some(value), outcome),
            Err(error) => outcome matches Err(DhlError::Serde(carried)) && carried == error,
        },
{
    match document {
        Err(error) => Err(DhlError::Serde(error)),
        Ok(value) => match ResponseNotOk::decode(&value) {
            Some(failure) => Err(
                DhlError::ResponseNotOk {
                    status: failure.status,
                    title: failure.title,
                    detail: failure.detail,
                },
            ),
            None => match R::decode(&value) {
                Some(decoded) => Ok(decoded),
                None => Err(DhlError::Serde(shape_error("the body is not the response's shape"))),
            },
        },
    }
}

/// The second half of a call: turns the body of a response into the typed
/// response or an error.
pub fn receive<R: Decode>(body: &[u8]) -> (outcome: Result<R, DhlError>)
    ensures
        classified::<R>(document_of(body@), outcome),
{
    classify(parse_document(body))
}

} // verus!
