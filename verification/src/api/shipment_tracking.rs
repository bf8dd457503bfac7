//! DHL's "Shipment Tracking - Unified" API: the request that tracks a
//! shipment, and the response that tells where it is.

use vstd::prelude::*;
use vstd::string::StringExecFns;

use super::{
    missing_credentials, prepared, Address, CountryCode, Division, HttpGet, LanguageCode,
};
use crate::decode::{decode_either_member, decode_member, Decode};
use crate::error::DhlError;
use crate::json::Json;
use crate::number::Decimal;
use crate::query::{
    camel_case, fields_of, lemma_fields_by_index, name_member, names_ascend, number_member,
    number_value, one_if_set, pairs_below, parts_at, precedes, present_below, query_text,
    serializable_to_url_params, text_member, text_of, text_value, wire_pairs, Field, FieldValue,
    Pair,
};
use crate::text::str_eq;
use crate::time::DateTime;

verus! {

/// API struct for calling DHL's "Shipment Tracking - Unified" API.
pub struct ShipmentTrackingApi {
    api_key: String,
}

impl ShipmentTrackingApi {
    /// The API key; empty where none is configured.
    pub closed spec fn api_key(&self) -> Seq<char> {
        self.api_key@
    }

    /// Creates a new API. An empty `api_key` stands for no key.
    pub fn new(api_key: &str) -> (api: ShipmentTrackingApi)
        ensures
            api.api_key() == api_key@,
    {
        ShipmentTrackingApi { api_key: String::from_str(api_key) }
    }

    /// The first half of a call: the HTTP GET for `request`, or
    /// `MissingCredentials` where the API has no key.
    pub fn prepare<T: ShipmentTrackingRequest>(&self, request: &T) -> (outcome: Result<
        HttpGet,
        DhlError,
    >)
        ensures
            prepared(self.api_key(), request.url_text(), outcome),
    {
        if self.api_key.as_str().is_empty() {
            return Err(missing_credentials("Shipment Tracking API"));
        }
        match request.url() {
            Ok(url) => Ok(HttpGet { url, api_key: self.api_key.clone() }),
            Err(error) => Err(error),
        }
    }
}

/// A trait all request structs must implement in order to be sent via the
/// [`ShipmentTrackingApi`].
pub trait ShipmentTrackingRequest {
    /// What the API answers the request with.
    type Response;

    /// The URL of the request, if it has one.
    spec fn url_text(&self) -> Option<Seq<char>>;

    /// The URL of the request, or the error for which it has none.
    fn url(&self) -> (url: Result<String, DhlError>)
        ensures
            match url {
                Ok(text) => self.url_text() == Some(text@),
                Err(_) => self.url_text() is None,
            },
    ;
}

/// The URL that tracks shipments.
pub open spec fn shipments_url() -> Seq<char> {
    "https://api-eu.dhl.com/track/shipments"@
}

/// The URL that tracks shipments.
pub fn shipments_url_str() -> (base: &'static str)
    ensures
        base@ == shipments_url(),
{
    "https://api-eu.dhl.com/track/shipments"
}

/// Parameters of the GET request returning shipment tracking data.
#[derive(Debug, Clone)]
pub struct GetShipmentTracking {
    tracking_number: String,
    service: Option<Division>,
    requester_country_code: Option<CountryCode>,
    origin_country_code: Option<CountryCode>,
    recipient_postal_code: Option<String>,
    language: Option<LanguageCode>,
    offset: Option<u32>,
    limit: Option<u32>,
}

/// What a `GetShipmentTracking` holds.
pub struct GetShipmentTrackingView {
    pub tracking_number: Seq<char>,
    pub service: Option<Division>,
    pub requester_country_code: Option<CountryCode>,
    pub origin_country_code: Option<CountryCode>,
    pub recipient_postal_code: Option<Seq<char>>,
    pub language: Option<LanguageCode>,
    pub offset: Option<u32>,
    pub limit: Option<u32>,
}

impl View for GetShipmentTracking {
    type V = GetShipmentTrackingView;

    closed spec fn view(&self) -> GetShipmentTrackingView {
        GetShipmentTrackingView {
            tracking_number: self.tracking_number@,
            service: self.service,
            requester_country_code: self.requester_country_code,
            origin_country_code: self.origin_country_code,
            recipient_postal_code: text_of(self.recipient_postal_code),
            language: self.language,
            offset: self.offset,
            limit: self.limit,
        }
    }
}

impl GetShipmentTracking {
    /// A request with its required parameters. No optional parameter is
    /// set.
    pub fn new(tracking_number: &str) -> (request: GetShipmentTracking)
        ensures
            request@ == (GetShipmentTrackingView {
                tracking_number: tracking_number@,
                service: None,
                requester_country_code: None,
                origin_country_code: None,
                recipient_postal_code: None,
                language: None,
                offset: None,
                limit: None,
            }),
    {
        GetShipmentTracking {
            tracking_number: String::from_str(tracking_number),
            service: None,
            requester_country_code: None,
            origin_country_code: None,
            recipient_postal_code: None,
            language: None,
            offset: None,
            limit: None,
        }
    }

    /// Sets or clears `service`.
    pub fn service(self, value: Option<Division>) -> (request: GetShipmentTracking)
        ensures
            request@ == (GetShipmentTrackingView { service: value, ..self@ }),
    {
        let mut request = self;
        request.service = value;
        request
    }

    /// Sets or clears `requester_country_code`.
    pub fn requester_country_code(
        self,
        value: Option<CountryCode>,
    ) -> (request: GetShipmentTracking)
        ensures
            request@ == (GetShipmentTrackingView { requester_country_code: value, ..self@ }),
    {
        let mut request = self;
        request.requester_country_code = value;
        request
    }

    /// Sets or clears `origin_country_code`.
    pub fn origin_country_code(self, value: Option<CountryCode>) -> (request: GetShipmentTracking)
        ensures
            request@ == (GetShipmentTrackingView { origin_country_code: value, ..self@ }),
    {
        let mut request = self;
        request.origin_country_code = value;
        request
    }

    /// Sets or clears `recipient_postal_code`.
    pub fn recipient_postal_code(self, value: Option<&str>) -> (request: GetShipmentTracking)
        ensures
            request@ == (GetShipmentTrackingView {
                recipient_postal_code: match value {
                    Some(text) => Some(text@),
                    None => None,
                },
                ..self@
            }),
    {
        let mut request = self;
        request.recipient_postal_code = match value {
            Some(text) => Some(String::from_str(text)),
            None => None,
        };
        request
    }

    /// Sets or clears `language`.
    pub fn language(self, value: Option<LanguageCode>) -> (request: GetShipmentTracking)
        ensures
            request@ == (GetShipmentTrackingView { language: value, ..self@ }),
    {
        let mut request = self;
        request.language = value;
        request
    }

    /// Sets or clears `offset`.
    pub fn offset(self, value: Option<u32>) -> (request: GetShipmentTracking)
        ensures
            request@ == (GetShipmentTrackingView { offset: value, ..self@ }),
    {
        let mut request = self;
        request.offset = value;
        request
    }

    /// Sets or clears `limit`.
    pub fn limit(self, value: Option<u32>) -> (request: GetShipmentTracking)
        ensures
            request@ == (GetShipmentTrackingView { limit: value, ..self@ }),
    {
        let mut request = self;
        request.limit = value;
        request
    }

    /// The fields of the request, in the order in which they are
    /// serialized: by name.
    pub open spec fn fields(&self) -> Seq<Field> {
        seq![
            ("language"@, text_value(
                match self@.language {
                    Some(name) => Some(name.wire()),
                    None => None,
                },
            )),
            ("limit"@, number_value(self@.limit)),
            ("offset"@, number_value(self@.offset)),
            ("origin_country_code"@, text_value(
                match self@.origin_country_code {
                    Some(name) => Some(name.wire()),
                    None => None,
                },
            )),
            ("recipient_postal_code"@, text_value(self@.recipient_postal_code)),
            ("requester_country_code"@, text_value(
                match self@.requester_country_code {
                    Some(name) => Some(name.wire()),
                    None => None,
                },
            )),
            ("service"@, text_value(
                match self@.service {
                    Some(name) => Some(name.wire()),
                    None => None,
                },
            )),
            ("tracking_number"@, FieldValue::Text(self@.tracking_number)),
        ]
    }

    /// The number of optional parameters that are set.
    pub open spec fn optional_count(&self) -> nat {
        one_if_set(self@.service)
            + one_if_set(self@.requester_country_code)
            + one_if_set(self@.origin_country_code)
            + one_if_set(self@.recipient_postal_code)
            + one_if_set(self@.language)
            + one_if_set(self@.offset)
            + one_if_set(self@.limit)
    }

    /// The request as an object: one member for each field, in the order
    /// of `fields`, holding a string, a number or a boolean where the
    /// field is set and a null where it is not.
    pub fn to_value(&self) -> (value: Json)
        ensures
            value matches Json::Object(members) && fields_of(members@) == self.fields(),
    {
        let mut members: Vec<(String, Json)> = Vec::new();
        let language: Option<String> = match self.language {
            Some(name) => Some(name.wire_name()),
            None => None,
        };
        members.push(text_member("language", &language));
        members.push(number_member("limit", self.limit));
        members.push(number_member("offset", self.offset));
        let origin_country_code: Option<String> = match self.origin_country_code {
            Some(name) => Some(name.wire_name()),
            None => None,
        };
        members.push(text_member("origin_country_code", &origin_country_code));
        members.push(text_member("recipient_postal_code", &self.recipient_postal_code));
        let requester_country_code: Option<String> = match self.requester_country_code {
            Some(name) => Some(name.wire_name()),
            None => None,
        };
        members.push(text_member("requester_country_code", &requester_country_code));
        let service: Option<&str> = match self.service {
            Some(name) => Some(name.wire_name()),
            None => None,
        };
        members.push(name_member("service", service));
        members.push(name_member("tracking_number", Some(self.tracking_number.as_str())));
        assert(fields_of(members@) =~= self.fields());
        Json::Object(members)
    }

    /// The query string of the request holds one pair for each required
    /// parameter and one for each optional parameter that is set.
    pub proof fn lemma_pair_count(&self)
        ensures
            wire_pairs(self.fields()).len() == 1 + self.optional_count(),
    {
        lemma_fields_by_index(self.fields());
        crate::query::lemma_pair_count(self.fields());
        reveal_with_fuel(present_below, 9);
    }

    /// The pairs of the required parameters, which every query string of
    /// the request holds.
    pub open spec fn required_pairs(&self) -> Seq<Pair> {
        seq![
            (camel_case("tracking_number"@), self@.tracking_number),
        ]
    }

    /// With no optional parameter set, the query string of the request
    /// holds the pairs of the required parameters and no other.
    pub proof fn lemma_required_pairs(&self)
        requires
            self.optional_count() == 0,
        ensures
            wire_pairs(self.fields()) == self.required_pairs(),
    {
        lemma_fields_by_index(self.fields());
        reveal_with_fuel(pairs_below, 9);
        assert(pairs_below(self.fields(), 8) =~= self.required_pairs());
    }

    /// The fields stand in the order of their names, each name once.
    pub proof fn lemma_names_ascend(&self)
        ensures
            names_ascend(self.fields()),
    {
        reveal_strlit("language");
        reveal_strlit("limit");
        reveal_strlit("offset");
        reveal_strlit("origin_country_code");
        reveal_strlit("recipient_postal_code");
        reveal_strlit("requester_country_code");
        reveal_strlit("service");
        reveal_strlit("tracking_number");
        let fields = self.fields();
        assert forall|i: int| 0 <= i < fields.len() - 1 implies precedes(
            #[trigger] fields[i].0,
            fields[i + 1].0,
        ) by {
            if i == 0 {
                assert("language"@[0] == 'l');
                assert("limit"@[0] == 'l');
                assert("language"@[1] == 'a');
                assert("limit"@[1] == 'i');
                assert(parts_at("language"@, "limit"@, 1));
            } else if i == 1 {
                assert("limit"@[0] == 'l');
                assert("offset"@[0] == 'o');
                assert(parts_at("limit"@, "offset"@, 0));
            } else if i == 2 {
                assert("offset"@[0] == 'o');
                assert("origin_country_code"@[0] == 'o');
                assert("offset"@[1] == 'f');
                assert("origin_country_code"@[1] == 'r');
                assert(parts_at("offset"@, "origin_country_code"@, 1));
            } else if i == 3 {
                assert("origin_country_code"@[0] == 'o');
                assert("recipient_postal_code"@[0] == 'r');
                assert(parts_at("origin_country_code"@, "recipient_postal_code"@, 0));
            } else if i == 4 {
                assert("recipient_postal_code"@[0] == 'r');
                assert("requester_country_code"@[0] == 'r');
                assert("recipient_postal_code"@[1] == 'e');
                assert("requester_country_code"@[1] == 'e');
                assert("recipient_postal_code"@[2] == 'c');
                assert("requester_country_code"@[2] == 'q');
                assert(parts_at("recipient_postal_code"@, "requester_country_code"@, 2));
            } else if i == 5 {
                assert("requester_country_code"@[0] == 'r');
                assert("service"@[0] == 's');
                assert(parts_at("requester_country_code"@, "service"@, 0));
            } else {
                assert("service"@[0] == 's');
                assert("tracking_number"@[0] == 't');
                assert(parts_at("service"@, "tracking_number"@, 0));
            }
        }
    }
}

impl ShipmentTrackingRequest for GetShipmentTracking {
    type Response = GetShipmentTrackingResponse;

    open spec fn url_text(&self) -> Option<Seq<char>> {
        Some(shipments_url() + query_text(wire_pairs(self.fields())))
    }

    fn url(&self) -> (url: Result<String, DhlError>) {
        let mut url = String::from_str(shipments_url_str());
        let query = serializable_to_url_params(&self.to_value());
        url.append(query.as_str());
        Ok(url)
    }
}

/// A successful response for the [`GetShipmentTracking`] request.
#[derive(Debug, Clone)]
pub struct GetShipmentTrackingResponse {
    pub url: Option<String>,
    pub prev_url: Option<String>,
    pub next_url: Option<String>,
    pub first_url: Option<String>,
    pub last_url: Option<String>,
    pub shipments: Vec<Shipment>,
    pub possible_additional_shipments_url: Vec<String>,
}

impl Decode for GetShipmentTrackingResponse {
    open spec fn accepts(value: Json) -> bool {
        &&& value is Object
        &&& Option::<String>::accepts(value.member_or_null("url"@))
        &&& Option::<String>::accepts(value.member_or_null("prevUrl"@))
        &&& Option::<String>::accepts(value.member_or_null("nextUrl"@))
        &&& Option::<String>::accepts(value.member_or_null("firstUrl"@))
        &&& Option::<String>::accepts(value.member_or_null("lastUrl"@))
        &&& Vec::<Shipment>::accepts(value.member_or_null("shipments"@))
        &&& Vec::<String>::accepts(value.member_or_null("possibleAdditionalShipmentsUrl"@))
    }

    open spec fn renders(value: Json, decoded: GetShipmentTrackingResponse) -> bool {
        &&& Option::<String>::renders(value.member_or_null("url"@), decoded.url)
        &&& Option::<String>::renders(value.member_or_null("prevUrl"@), decoded.prev_url)
        &&& Option::<String>::renders(value.member_or_null("nextUrl"@), decoded.next_url)
        &&& Option::<String>::renders(value.member_or_null("firstUrl"@), decoded.first_url)
        &&& Option::<String>::renders(value.member_or_null("lastUrl"@), decoded.last_url)
        &&& Vec::<Shipment>::renders(value.member_or_null("shipments"@), decoded.shipments)
        &&& Vec::<String>::renders(
            value.member_or_null("possibleAdditionalShipmentsUrl"@),
            decoded.possible_additional_shipments_url,
        )
    }

    fn decode(value: &Json) -> (decoded: Option<GetShipmentTrackingResponse>) {
        if !value.is_object() {
            return None;
        }
        let url = decode_member::<Option<String>>(value, "url")?;
        let prev_url = decode_member::<Option<String>>(value, "prevUrl")?;
        let next_url = decode_member::<Option<String>>(value, "nextUrl")?;
        let first_url = decode_member::<Option<String>>(value, "firstUrl")?;
        let last_url = decode_member::<Option<String>>(value, "lastUrl")?;
        let shipments = decode_member::<Vec<Shipment>>(value, "shipments")?;
        let possible_additional_shipments_url = decode_member::<Vec<String>>(
            value,
            "possibleAdditionalShipmentsUrl",
        )?;
        Some(
            GetShipmentTrackingResponse {
                url,
                prev_url,
                next_url,
                first_url,
                last_url,
                shipments,
                possible_additional_shipments_url,
            },
        )
    }
}

/// A shipment with its tracking information like status or ETA.
#[derive(Debug, Clone)]
pub struct Shipment {
    pub id: String,
    pub service: Division,
    pub origin: ShipmentPathPoint,
    pub destination: ShipmentPathPoint,
    pub status: ShipmentStatus,
    pub estimated_time_of_delivery: Option<DateTime>,
    pub estimated_delivery_time_frame: Option<EstimatedDeliveryTimeFrame>,
    pub estimated_time_of_delivery_remark: Option<String>,
    pub service_url: Option<String>,
    pub reroute_url: Option<String>,
    pub details: ShipmentDetail,
    pub events: Vec<ShipmentEvent>,
}

impl Decode for Shipment {
    open spec fn accepts(value: Json) -> bool {
        &&& value is Object
        &&& String::accepts(value.member_or_null("id"@))
        &&& Division::accepts(value.member_or_null("service"@))
        &&& ShipmentPathPoint::accepts(value.member_or_null("origin"@))
        &&& ShipmentPathPoint::accepts(value.member_or_null("destination"@))
        &&& ShipmentStatus::accepts(value.member_or_null("status"@))
        &&& Option::<DateTime>::accepts(value.member_or_null("estimatedTimeOfDelivery"@))
        &&& Option::<EstimatedDeliveryTimeFrame>::accepts(
            value.member_or_null("estimatedDeliveryTimeFrame"@),
        )
        &&& Option::<String>::accepts(value.member_or_null("estimatedTimeOfDeliveryRemark"@))
        &&& Option::<String>::accepts(value.member_or_null("serviceUrl"@))
        &&& Option::<String>::accepts(value.member_or_null("rerouteUrl"@))
        &&& ShipmentDetail::accepts(value.member_or_null("details"@))
        &&& Vec::<ShipmentEvent>::accepts(value.member_or_null("events"@))
    }

    open spec fn renders(value: Json, decoded: Shipment) -> bool {
        &&& String::renders(value.member_or_null("id"@), decoded.id)
        &&& Division::renders(value.member_or_null("service"@), decoded.service)
        &&& ShipmentPathPoint::renders(value.member_or_null("origin"@), decoded.origin)
        &&& ShipmentPathPoint::renders(value.member_or_null("destination"@), decoded.destination)
        &&& ShipmentStatus::renders(value.member_or_null("status"@), decoded.status)
        &&& Option::<DateTime>::renders(
            value.member_or_null("estimatedTimeOfDelivery"@),
            decoded.estimated_time_of_delivery,
        )
        &&& Option::<EstimatedDeliveryTimeFrame>::renders(
            value.member_or_null("estimatedDeliveryTimeFrame"@),
            decoded.estimated_delivery_time_frame,
        )
        &&& Option::<String>::renders(
            value.member_or_null("estimatedTimeOfDeliveryRemark"@),
            decoded.estimated_time_of_delivery_remark,
        )
        &&& Option::<String>::renders(value.member_or_null("serviceUrl"@), decoded.service_url)
        &&& Option::<String>::renders(value.member_or_null("rerouteUrl"@), decoded.reroute_url)
        &&& ShipmentDetail::renders(value.member_or_null("details"@), decoded.details)
        &&& Vec::<ShipmentEvent>::renders(value.member_or_null("events"@), decoded.events)
    }

    fn decode(value: &Json) -> (decoded: Option<Shipment>) {
        if !value.is_object() {
            return None;
        }
        let id = decode_member::<String>(value, "id")?;
        let service = decode_member::<Division>(value, "service")?;
        let origin = decode_member::<ShipmentPathPoint>(value, "origin")?;
        let destination = decode_member::<ShipmentPathPoint>(value, "destination")?;
        let status = decode_member::<ShipmentStatus>(value, "status")?;
        let estimated_time_of_delivery = decode_member::<Option<DateTime>>(
            value,
            "estimatedTimeOfDelivery",
        )?;
        let estimated_delivery_time_frame = decode_member::<Option<EstimatedDeliveryTimeFrame>>(
            value,
            "estimatedDeliveryTimeFrame",
        )?;
        let estimated_time_of_delivery_remark = decode_member::<Option<String>>(
            value,
            "estimatedTimeOfDeliveryRemark",
        )?;
        let service_url = decode_member::<Option<String>>(value, "serviceUrl")?;
        let reroute_url = decode_member::<Option<String>>(value, "rerouteUrl")?;
        let details = decode_member::<ShipmentDetail>(value, "details")?;
        let events = decode_member::<Vec<ShipmentEvent>>(value, "events")?;
        Some(
            Shipment {
                id,
                service,
                origin,
                destination,
                status,
                estimated_time_of_delivery,
                estimated_delivery_time_frame,
                estimated_time_of_delivery_remark,
                service_url,
                reroute_url,
                details,
                events,
            },
        )
    }
}

/// A stop on a shipment's route. Could be the origin, destination or a stop in between.
#[derive(Debug, Clone)]
pub struct ShipmentPathPoint {
    pub address: Address,
    pub service_point: Option<SimpleServicePoint>,
}

impl Decode for ShipmentPathPoint {
    open spec fn accepts(value: Json) -> bool {
        &&& value is Object
        &&& Address::accepts(value.member_or_null("address"@))
        &&& Option::<SimpleServicePoint>::accepts(value.member_or_null("servicePoint"@))
    }

    open spec fn renders(value: Json, decoded: ShipmentPathPoint) -> bool {
        &&& Address::renders(value.member_or_null("address"@), decoded.address)
        &&& Option::<SimpleServicePoint>::renders(
            value.member_or_null("servicePoint"@),
            decoded.service_point,
        )
    }

    fn decode(value: &Json) -> (decoded: Option<ShipmentPathPoint>) {
        if !value.is_object() {
            return None;
        }
        let address = decode_member::<Address>(value, "address")?;
        let service_point = decode_member::<Option<SimpleServicePoint>>(value, "servicePoint")?;
        Some(ShipmentPathPoint { address, service_point })
    }
}

/// DHL service point that is a stop on a shipment's route.
#[derive(Debug, Clone)]
pub struct SimpleServicePoint {
    pub url: String,
    pub label: String,
}

impl Decode for SimpleServicePoint {
    open spec fn accepts(value: Json) -> bool {
        &&& value is Object
        &&& String::accepts(value.member_or_null("url"@))
        &&& String::accepts(value.member_or_null("label"@))
    }

    open spec fn renders(value: Json, decoded: SimpleServicePoint) -> bool {
        &&& String::renders(value.member_or_null("url"@), decoded.url)
        &&& String::renders(value.member_or_null("label"@), decoded.label)
    }

    fn decode(value: &Json) -> (decoded: Option<SimpleServicePoint>) {
        if !value.is_object() {
            return None;
        }
        let url = decode_member::<String>(value, "url")?;
        let label = decode_member::<String>(value, "label")?;
        Some(SimpleServicePoint { url, label })
    }
}

/// Current status of a shipment.
#[derive(Debug, Clone)]
pub struct ShipmentStatus {
    pub timestamp: DateTime,
    pub location: ShipmentPathPoint,
    pub status_code: ShipmentStatusCode,
    pub status: String,
    pub description: String,
    pub piece_ids: Option<Vec<String>>,
    pub remark: Option<String>,
    pub next_steps: Option<String>,
}

impl Decode for ShipmentStatus {
    open spec fn accepts(value: Json) -> bool {
        &&& value is Object
        &&& DateTime::accepts(value.member_or_null("timestamp"@))
        &&& ShipmentPathPoint::accepts(value.member_or_null("location"@))
        &&& ShipmentStatusCode::accepts(value.member_or_null("statusCode"@))
        &&& String::accepts(value.member_or_null("status"@))
        &&& String::accepts(value.member_or_null("description"@))
        &&& Option::<Vec<String>>::accepts(value.member_or_null("pieceIds"@))
        &&& Option::<String>::accepts(value.member_or_null("remark"@))
        &&& Option::<String>::accepts(value.member_or_null("nextSteps"@))
    }

    open spec fn renders(value: Json, decoded: ShipmentStatus) -> bool {
        &&& DateTime::renders(value.member_or_null("timestamp"@), decoded.timestamp)
        &&& ShipmentPathPoint::renders(value.member_or_null("location"@), decoded.location)
        &&& ShipmentStatusCode::renders(value.member_or_null("statusCode"@), decoded.status_code)
        &&& String::renders(value.member_or_null("status"@), decoded.status)
        &&& String::renders(value.member_or_null("description"@), decoded.description)
        &&& Option::<Vec<String>>::renders(value.member_or_null("pieceIds"@), decoded.piece_ids)
        &&& Option::<String>::renders(value.member_or_null("remark"@), decoded.remark)
        &&& Option::<String>::renders(value.member_or_null("nextSteps"@), decoded.next_steps)
    }

    fn decode(value: &Json) -> (decoded: Option<ShipmentStatus>) {
        if !value.is_object() {
            return None;
        }
        let timestamp = decode_member::<DateTime>(value, "timestamp")?;
        let location = decode_member::<ShipmentPathPoint>(value, "location")?;
        let status_code = decode_member::<ShipmentStatusCode>(value, "statusCode")?;
        let status = decode_member::<String>(value, "status")?;
        let description = decode_member::<String>(value, "description")?;
        let piece_ids = decode_member::<Option<Vec<String>>>(value, "pieceIds")?;
        let remark = decode_member::<Option<String>>(value, "remark")?;
        let next_steps = decode_member::<Option<String>>(value, "nextSteps")?;
        Some(
            ShipmentStatus {
                timestamp,
                location,
                status_code,
                status,
                description,
                piece_ids,
                remark,
                next_steps,
            },
        )
    }
}

/// DHL's status codes for shipment tracking.
#[derive(Debug, Clone, Copy, PartialEq, Eq, Structural)]
pub enum ShipmentStatusCode {
    PreTransit,
    Transit,
    Delivered,
    Failure,
    Unknown,
}

impl ShipmentStatusCode {
    /// The name under which a status code is written on the wire.
    pub open spec fn wire(self) -> Seq<char> {
        match self {
            ShipmentStatusCode::PreTransit => "pre-transit"@,
            ShipmentStatusCode::Transit => "transit"@,
            ShipmentStatusCode::Delivered => "delivered"@,
            ShipmentStatusCode::Failure => "failure"@,
            ShipmentStatusCode::Unknown => "unknown"@,
        }
    }

    /// Whether `name` is read as a status code.
    pub open spec fn reads(self, name: Seq<char>) -> bool {
        name == self.wire()
    }

    /// The name under which a status code is written on the wire.
    pub fn wire_name(&self) -> (name: &'static str)
        ensures
            name@ == self.wire(),
    {
        match self {
            ShipmentStatusCode::PreTransit => "pre-transit",
            ShipmentStatusCode::Transit => "transit",
            ShipmentStatusCode::Delivered => "delivered",
            ShipmentStatusCode::Failure => "failure",
            ShipmentStatusCode::Unknown => "unknown",
        }
    }

    /// Reads a name from the wire: `Some` for exactly the names that are
    /// read as a value, `None` for every other text.
    pub fn from_wire(name: &str) -> (decoded: Option<ShipmentStatusCode>)
        ensures
            match decoded {
                Some(value) => value.reads(name@),
                None => forall|value: ShipmentStatusCode| !value.reads(name@),
            },
    {
        if str_eq(name, "pre-transit") {
            Some(ShipmentStatusCode::PreTransit)
        } else if str_eq(name, "transit") {
            Some(ShipmentStatusCode::Transit)
        } else if str_eq(name, "delivered") {
            Some(ShipmentStatusCode::Delivered)
        } else if str_eq(name, "failure") {
            Some(ShipmentStatusCode::Failure)
        } else if str_eq(name, "unknown") {
            Some(ShipmentStatusCode::Unknown)
        } else {
            None
        }
    }

    /// No name is read as two different values.
    pub proof fn lemma_reads_one(a: ShipmentStatusCode, b: ShipmentStatusCode, name: Seq<char>)
        requires
            a.reads(name),
            b.reads(name),
        ensures
            a == b,
    {
        reveal_strlit("pre-transit");
        reveal_strlit("transit");
        reveal_strlit("delivered");
        reveal_strlit("failure");
        reveal_strlit("unknown");
        assert("pre-transit"@.len() == 11 && "pre-transit"@[0] == 'p');
        assert("transit"@.len() == 7 && "transit"@[0] == 't');
        assert("delivered"@.len() == 9 && "delivered"@[0] == 'd');
        assert("failure"@.len() == 7 && "failure"@[0] == 'f');
        assert("unknown"@.len() == 7 && "unknown"@[0] == 'u');
    }
}

impl Decode for ShipmentStatusCode {
    open spec fn accepts(value: Json) -> bool {
        value matches Json::Text(name) && exists|decoded: ShipmentStatusCode| decoded.reads(name@)
    }

    open spec fn renders(value: Json, decoded: ShipmentStatusCode) -> bool {
        value matches Json::Text(name) && decoded.reads(name@)
    }

    fn decode(value: &Json) -> (decoded: Option<ShipmentStatusCode>) {
        match value {
            Json::Text(name) => ShipmentStatusCode::from_wire(name.as_str()),
            _ => None,
        }
    }
}

/// The time frame in which a shipment is expected to be delivered.
#[derive(Debug, Clone)]
pub struct EstimatedDeliveryTimeFrame {
    pub estimated_from: DateTime,
    pub estimated_through: DateTime,
}

impl Decode for EstimatedDeliveryTimeFrame {
    open spec fn accepts(value: Json) -> bool {
        &&& value is Object
        &&& DateTime::accepts(value.member_or_null("estimatedFrom"@))
        &&& DateTime::accepts(value.member_or_null("estimatedThrough"@))
    }

    open spec fn renders(value: Json, decoded: EstimatedDeliveryTimeFrame) -> bool {
        &&& DateTime::renders(value.member_or_null("estimatedFrom"@), decoded.estimated_from)
        &&& DateTime::renders(value.member_or_null("estimatedThrough"@), decoded.estimated_through)
    }

    fn decode(value: &Json) -> (decoded: Option<EstimatedDeliveryTimeFrame>) {
        if !value.is_object() {
            return None;
        }
        let estimated_from = decode_member::<DateTime>(value, "estimatedFrom")?;
        let estimated_through = decode_member::<DateTime>(value, "estimatedThrough")?;
        Some(EstimatedDeliveryTimeFrame { estimated_from, estimated_through })
    }
}

/// Details on a tracked shipment.
#[derive(Debug, Clone)]
pub struct ShipmentDetail {
    pub carrier: Option<ShipmentCarrier>,
    pub receiver: Option<ShipmentParty>,
    pub sender: Option<ShipmentParty>,
    pub product: Option<ShipmentProduct>,
    pub proof_of_delivery_signed_available: bool,
    pub proof_of_delivery: Option<ShipmentProofOfDelivery>,
    pub total_number_of_pieces: u32,
    pub piece_ids: Vec<String>,
    pub weight: Option<ShipmentFloatWithUnit>,
    pub volume: Option<ShipmentFloatWithUnit>,
    pub loading_meters: Option<Decimal>,
    pub dimensions: Option<ShipmentDimension>,
    pub references: Option<Vec<ShipmentDetailReference>>,
    pub dgf_routes: Option<Vec<ShipmentDgfRoute>>,
}

impl Decode for ShipmentDetail {
    open spec fn accepts(value: Json) -> bool {
        &&& value is Object
        &&& Option::<ShipmentCarrier>::accepts(value.member_or_null("carrier"@))
        &&& Option::<ShipmentParty>::accepts(value.member_or_null("receiver"@))
        &&& Option::<ShipmentParty>::accepts(value.member_or_null("sender"@))
        &&& Option::<ShipmentProduct>::accepts(value.member_or_null("product"@))
        &&& bool::accepts(value.member_or_null("proofOfDeliverySignedAvailable"@))
        &&& Option::<ShipmentProofOfDelivery>::accepts(value.member_or_null("proofOfDelivery"@))
        &&& u32::accepts(value.member_or_null("totalNumberOfPieces"@))
        &&& Vec::<String>::accepts(value.member_or_null("pieceIds"@))
        &&& Option::<ShipmentFloatWithUnit>::accepts(value.member_or_null("weight"@))
        &&& Option::<ShipmentFloatWithUnit>::accepts(value.member_or_null("volume"@))
        &&& Option::<Decimal>::accepts(value.member_or_null("loadingMeters"@))
        &&& Option::<ShipmentDimension>::accepts(value.member_or_null("dimensions"@))
        &&& Option::<Vec<ShipmentDetailReference>>::accepts(value.member_or_null("references"@))
        &&& Option::<Vec<ShipmentDgfRoute>>::accepts(
            value.either_member_or_null("dgfRoutes"@, "dgf:routes"@),
        )
    }

    open spec fn renders(value: Json, decoded: ShipmentDetail) -> bool {
        &&& Option::<ShipmentCarrier>::renders(value.member_or_null("carrier"@), decoded.carrier)
        &&& Option::<ShipmentParty>::renders(value.member_or_null("receiver"@), decoded.receiver)
        &&& Option::<ShipmentParty>::renders(value.member_or_null("sender"@), decoded.sender)
        &&& Option::<ShipmentProduct>::renders(value.member_or_null("product"@), decoded.product)
        &&& bool::renders(
            value.member_or_null("proofOfDeliverySignedAvailable"@),
            decoded.proof_of_delivery_signed_available,
        )
        &&& Option::<ShipmentProofOfDelivery>::renders(
            value.member_or_null("proofOfDelivery"@),
            decoded.proof_of_delivery,
        )
        &&& u32::renders(
            value.member_or_null("totalNumberOfPieces"@),
            decoded.total_number_of_pieces,
        )
        &&& Vec::<String>::renders(value.member_or_null("pieceIds"@), decoded.piece_ids)
        &&& Option::<ShipmentFloatWithUnit>::renders(
            value.member_or_null("weight"@),
            decoded.weight,
        )
        &&& Option::<ShipmentFloatWithUnit>::renders(
            value.member_or_null("volume"@),
            decoded.volume,
        )
        &&& Option::<Decimal>::renders(
            value.member_or_null("loadingMeters"@),
            decoded.loading_meters,
        )
        &&& Option::<ShipmentDimension>::renders(
            value.member_or_null("dimensions"@),
            decoded.dimensions,
        )
        &&& Option::<Vec<ShipmentDetailReference>>::renders(
            value.member_or_null("references"@),
            decoded.references,
        )
        &&& Option::<Vec<ShipmentDgfRoute>>::renders(
            value.either_member_or_null("dgfRoutes"@, "dgf:routes"@),
            decoded.dgf_routes,
        )
    }

    fn decode(value: &Json) -> (decoded: Option<ShipmentDetail>) {
        if !value.is_object() {
            return None;
        }
        let carrier = decode_member::<Option<ShipmentCarrier>>(value, "carrier")?;
        let receiver = decode_member::<Option<ShipmentParty>>(value, "receiver")?;
        let sender = decode_member::<Option<ShipmentParty>>(value, "sender")?;
        let product = decode_member::<Option<ShipmentProduct>>(value, "product")?;
        let proof_of_delivery_signed_available = decode_member::<bool>(
            value,
            "proofOfDeliverySignedAvailable",
        )?;
        let proof_of_delivery = decode_member::<Option<ShipmentProofOfDelivery>>(
            value,
            "proofOfDelivery",
        )?;
        let total_number_of_pieces = decode_member::<u32>(value, "totalNumberOfPieces")?;
        let piece_ids = decode_member::<Vec<String>>(value, "pieceIds")?;
        let weight = decode_member::<Option<ShipmentFloatWithUnit>>(value, "weight")?;
        let volume = decode_member::<Option<ShipmentFloatWithUnit>>(value, "volume")?;
        let loading_meters = decode_member::<Option<Decimal>>(value, "loadingMeters")?;
        let dimensions = decode_member::<Option<ShipmentDimension>>(value, "dimensions")?;
        let references = decode_member::<Option<Vec<ShipmentDetailReference>>>(
            value,
            "references",
        )?;
        let dgf_routes = decode_either_member::<Option<Vec<ShipmentDgfRoute>>>(
            value,
            "dgfRoutes",
            "dgf:routes",
        )?;
        Some(
            ShipmentDetail {
                carrier,
                receiver,
                sender,
                product,
                proof_of_delivery_signed_available,
                proof_of_delivery,
                total_number_of_pieces,
                piece_ids,
                weight,
                volume,
                loading_meters,
                dimensions,
                references,
                dgf_routes,
            },
        )
    }
}

/// The carrier of a shipment.
#[derive(Debug, Clone)]
pub struct ShipmentCarrier {
    /// The kind of entry, under the key `type` or `@type`.
    pub kind: String,
    pub organization_name: String,
}

impl Decode for ShipmentCarrier {
    open spec fn accepts(value: Json) -> bool {
        &&& value is Object
        &&& String::accepts(value.either_member_or_null("type"@, "@type"@))
        &&& String::accepts(value.member_or_null("organizationName"@))
    }

    open spec fn renders(value: Json, decoded: ShipmentCarrier) -> bool {
        &&& String::renders(value.either_member_or_null("type"@, "@type"@), decoded.kind)
        &&& String::renders(value.member_or_null("organizationName"@), decoded.organization_name)
    }

    fn decode(value: &Json) -> (decoded: Option<ShipmentCarrier>) {
        if !value.is_object() {
            return None;
        }
        let kind = decode_either_member::<String>(value, "type", "@type")?;
        let organization_name = decode_member::<String>(value, "organizationName")?;
        Some(ShipmentCarrier { kind, organization_name })
    }
}

/// Identification data for shipment parties like sender or receiver.
#[derive(Debug, Clone)]
pub struct ShipmentParty {
    /// The kind of entry, under the key `type` or `@type`.
    pub kind: String,
    pub organization_name: String,
    pub family_name: String,
    pub given_name: String,
    pub name: String,
}

impl Decode for ShipmentParty {
    open spec fn accepts(value: Json) -> bool {
        &&& value is Object
        &&& String::accepts(value.either_member_or_null("type"@, "@type"@))
        &&& String::accepts(value.member_or_null("organizationName"@))
        &&& String::accepts(value.member_or_null("familyName"@))
        &&& String::accepts(value.member_or_null("givenName"@))
        &&& String::accepts(value.member_or_null("name"@))
    }

    open spec fn renders(value: Json, decoded: ShipmentParty) -> bool {
        &&& String::renders(value.either_member_or_null("type"@, "@type"@), decoded.kind)
        &&& String::renders(value.member_or_null("organizationName"@), decoded.organization_name)
        &&& String::renders(value.member_or_null("familyName"@), decoded.family_name)
        &&& String::renders(value.member_or_null("givenName"@), decoded.given_name)
        &&& String::renders(value.member_or_null("name"@), decoded.name)
    }

    fn decode(value: &Json) -> (decoded: Option<ShipmentParty>) {
        if !value.is_object() {
            return None;
        }
        let kind = decode_either_member::<String>(value, "type", "@type")?;
        let organization_name = decode_member::<String>(value, "organizationName")?;
        let family_name = decode_member::<String>(value, "familyName")?;
        let given_name = decode_member::<String>(value, "givenName")?;
        let name = decode_member::<String>(value, "name")?;
        Some(ShipmentParty { kind, organization_name, family_name, given_name, name })
    }
}

/// The product under which a shipment travels.
#[derive(Debug, Clone)]
pub struct ShipmentProduct {
    pub product_name: String,
}

impl Decode for ShipmentProduct {
    open spec fn accepts(value: Json) -> bool {
        &&& value is Object
        &&& String::accepts(value.member_or_null("productName"@))
    }

    open spec fn renders(value: Json, decoded: ShipmentProduct) -> bool {
        &&& String::renders(value.member_or_null("productName"@), decoded.product_name)
    }

    fn decode(value: &Json) -> (decoded: Option<ShipmentProduct>) {
        if !value.is_object() {
            return None;
        }
        let product_name = decode_member::<String>(value, "productName")?;
        Some(ShipmentProduct { product_name })
    }
}

/// The proof that a shipment was delivered.
#[derive(Debug, Clone)]
pub struct ShipmentProofOfDelivery {
    pub timestamp: String,
    pub signature_url: String,
    pub document_url: String,
    pub signed: Option<ShipmentSigned>,
}

impl Decode for ShipmentProofOfDelivery {
    open spec fn accepts(value: Json) -> bool {
        &&& value is Object
        &&& String::accepts(value.member_or_null("timestamp"@))
        &&& String::accepts(value.member_or_null("signatureUrl"@))
        &&& String::accepts(value.member_or_null("documentUrl"@))
        &&& Option::<ShipmentSigned>::accepts(value.member_or_null("signed"@))
    }

    open spec fn renders(value: Json, decoded: ShipmentProofOfDelivery) -> bool {
        &&& String::renders(value.member_or_null("timestamp"@), decoded.timestamp)
        &&& String::renders(value.member_or_null("signatureUrl"@), decoded.signature_url)
        &&& String::renders(value.member_or_null("documentUrl"@), decoded.document_url)
        &&& Option::<ShipmentSigned>::renders(value.member_or_null("signed"@), decoded.signed)
    }

    fn decode(value: &Json) -> (decoded: Option<ShipmentProofOfDelivery>) {
        if !value.is_object() {
            return None;
        }
        let timestamp = decode_member::<String>(value, "timestamp")?;
        let signature_url = decode_member::<String>(value, "signatureUrl")?;
        let document_url = decode_member::<String>(value, "documentUrl")?;
        let signed = decode_member::<Option<ShipmentSigned>>(value, "signed")?;
        Some(ShipmentProofOfDelivery { timestamp, signature_url, document_url, signed })
    }
}

/// Identification data on the subject signing for proof of delivery.
#[derive(Debug, Clone)]
pub struct ShipmentSigned {
    /// The kind of entry, under the key `type` or `@type`.
    pub kind: String,
    pub family_name: String,
    pub given_name: String,
    pub name: String,
}

impl Decode for ShipmentSigned {
    open spec fn accepts(value: Json) -> bool {
        &&& value is Object
        &&& String::accepts(value.either_member_or_null("type"@, "@type"@))
        &&& String::accepts(value.member_or_null("familyName"@))
        &&& String::accepts(value.member_or_null("givenName"@))
        &&& String::accepts(value.member_or_null("name"@))
    }

    open spec fn renders(value: Json, decoded: ShipmentSigned) -> bool {
        &&& String::renders(value.either_member_or_null("type"@, "@type"@), decoded.kind)
        &&& String::renders(value.member_or_null("familyName"@), decoded.family_name)
        &&& String::renders(value.member_or_null("givenName"@), decoded.given_name)
        &&& String::renders(value.member_or_null("name"@), decoded.name)
    }

    fn decode(value: &Json) -> (decoded: Option<ShipmentSigned>) {
        if !value.is_object() {
            return None;
        }
        let kind = decode_either_member::<String>(value, "type", "@type")?;
        let family_name = decode_member::<String>(value, "familyName")?;
        let given_name = decode_member::<String>(value, "givenName")?;
        let name = decode_member::<String>(value, "name")?;
        Some(ShipmentSigned { kind, family_name, given_name, name })
    }
}

/// A decimal value with a string specifying the unit.
#[derive(Debug, Clone)]
pub struct ShipmentFloatWithUnit {
    pub value: Decimal,
    pub unit_text: Option<String>,
}

impl Decode for ShipmentFloatWithUnit {
    open spec fn accepts(value: Json) -> bool {
        &&& value is Object
        &&& Decimal::accepts(value.member_or_null("value"@))
        &&& Option::<String>::accepts(value.member_or_null("unitText"@))
    }

    open spec fn renders(value: Json, decoded: ShipmentFloatWithUnit) -> bool {
        &&& Decimal::renders(value.member_or_null("value"@), decoded.value)
        &&& Option::<String>::renders(value.member_or_null("unitText"@), decoded.unit_text)
    }

    fn decode(value: &Json) -> (decoded: Option<ShipmentFloatWithUnit>) {
        if !value.is_object() {
            return None;
        }
        let amount = decode_member::<Decimal>(value, "value")?;
        let unit_text = decode_member::<Option<String>>(value, "unitText")?;
        Some(ShipmentFloatWithUnit { value: amount, unit_text })
    }
}

/// Dimensions (x,y,z) of a shipment.
#[derive(Debug, Clone)]
pub struct ShipmentDimension {
    pub width: ShipmentFloatWithUnit,
    pub height: ShipmentFloatWithUnit,
    pub length: ShipmentFloatWithUnit,
}

impl Decode for ShipmentDimension {
    open spec fn accepts(value: Json) -> bool {
        &&& value is Object
        &&& ShipmentFloatWithUnit::accepts(value.member_or_null("width"@))
        &&& ShipmentFloatWithUnit::accepts(value.member_or_null("height"@))
        &&& ShipmentFloatWithUnit::accepts(value.member_or_null("length"@))
    }

    open spec fn renders(value: Json, decoded: ShipmentDimension) -> bool {
        &&& ShipmentFloatWithUnit::renders(value.member_or_null("width"@), decoded.width)
        &&& ShipmentFloatWithUnit::renders(value.member_or_null("height"@), decoded.height)
        &&& ShipmentFloatWithUnit::renders(value.member_or_null("length"@), decoded.length)
    }

    fn decode(value: &Json) -> (decoded: Option<ShipmentDimension>) {
        if !value.is_object() {
            return None;
        }
        let width = decode_member::<ShipmentFloatWithUnit>(value, "width")?;
        let height = decode_member::<ShipmentFloatWithUnit>(value, "height")?;
        let length = decode_member::<ShipmentFloatWithUnit>(value, "length")?;
        Some(ShipmentDimension { width, height, length })
    }
}

/// Labeled identification numbers for entities related to the shipment.
#[derive(Debug, Clone)]
pub struct ShipmentDetailReference {
    pub number: String,
    /// The type of reference, under the key `type`.
    pub kind: ShipmentDetailReferenceType,
}

impl Decode for ShipmentDetailReference {
    open spec fn accepts(value: Json) -> bool {
        &&& value is Object
        &&& String::accepts(value.member_or_null("number"@))
        &&& ShipmentDetailReferenceType::accepts(value.member_or_null("type"@))
    }

    open spec fn renders(value: Json, decoded: ShipmentDetailReference) -> bool {
        &&& String::renders(value.member_or_null("number"@), decoded.number)
        &&& ShipmentDetailReferenceType::renders(value.member_or_null("type"@), decoded.kind)
    }

    fn decode(value: &Json) -> (decoded: Option<ShipmentDetailReference>) {
        if !value.is_object() {
            return None;
        }
        let number = decode_member::<String>(value, "number")?;
        let kind = decode_member::<ShipmentDetailReferenceType>(value, "type")?;
        Some(ShipmentDetailReference { number, kind })
    }
}

/// Type of a reference to an entity related to the shipment.
#[derive(Debug, Clone, Copy, PartialEq, Eq, Structural)]
pub enum ShipmentDetailReferenceType {
    CustomerReference,
    CustomerConfirmationNumber,
    LocalTrackingNumber,
    EcommerceNumber,
    Housebill,
    Masterbill,
    ContainerNumber,
    ShipmentId,
    DomesticConsignmentId,
    Reference,
}

impl ShipmentDetailReferenceType {
    /// The name under which a reference type is written on the wire.
    pub open spec fn wire(self) -> Seq<char> {
        match self {
            ShipmentDetailReferenceType::CustomerReference => "customer-reference"@,
            ShipmentDetailReferenceType::CustomerConfirmationNumber => {
                "customer-confirmation-number"@
            },
            ShipmentDetailReferenceType::LocalTrackingNumber => "local-tracking-number"@,
            ShipmentDetailReferenceType::EcommerceNumber => "ecommerce-number"@,
            ShipmentDetailReferenceType::Housebill => "housebill"@,
            ShipmentDetailReferenceType::Masterbill => "masterbill"@,
            ShipmentDetailReferenceType::ContainerNumber => "container-number"@,
            ShipmentDetailReferenceType::ShipmentId => "shipment-id"@,
            ShipmentDetailReferenceType::DomesticConsignmentId => "domestic-consignment-id"@,
            ShipmentDetailReferenceType::Reference => "reference"@,
        }
    }

    /// Whether `name` is read as a reference type.
    pub open spec fn reads(self, name: Seq<char>) -> bool {
        name == self.wire()
    }

    /// The name under which a reference type is written on the wire.
    pub fn wire_name(&self) -> (name: &'static str)
        ensures
            name@ == self.wire(),
    {
        match self {
            ShipmentDetailReferenceType::CustomerReference => "customer-reference",
            ShipmentDetailReferenceType::CustomerConfirmationNumber => {
                "customer-confirmation-number"
            },
            ShipmentDetailReferenceType::LocalTrackingNumber => "local-tracking-number",
            ShipmentDetailReferenceType::EcommerceNumber => "ecommerce-number",
            ShipmentDetailReferenceType::Housebill => "housebill",
            ShipmentDetailReferenceType::Masterbill => "masterbill",
            ShipmentDetailReferenceType::ContainerNumber => "container-number",
            ShipmentDetailReferenceType::ShipmentId => "shipment-id",
            ShipmentDetailReferenceType::DomesticConsignmentId => "domestic-consignment-id",
            ShipmentDetailReferenceType::Reference => "reference",
        }
    }

    /// Reads a name from the wire: `Some` for exactly the names that are
    /// read as a value, `None` for every other text.
    pub fn from_wire(name: &str) -> (decoded: Option<ShipmentDetailReferenceType>)
        ensures
            match decoded {
                Some(value) => value.reads(name@),
                None => forall|value: ShipmentDetailReferenceType| !value.reads(name@),
            },
    {
        if str_eq(name, "customer-reference") {
            Some(ShipmentDetailReferenceType::CustomerReference)
        } else if str_eq(name, "customer-confirmation-number") {
            Some(ShipmentDetailReferenceType::CustomerConfirmationNumber)
        } else if str_eq(name, "local-tracking-number") {
            Some(ShipmentDetailReferenceType::LocalTrackingNumber)
        } else if str_eq(name, "ecommerce-number") {
            Some(ShipmentDetailReferenceType::EcommerceNumber)
        } else if str_eq(name, "housebill") {
            Some(ShipmentDetailReferenceType::Housebill)
        } else if str_eq(name, "masterbill") {
            Some(ShipmentDetailReferenceType::Masterbill)
        } else if str_eq(name, "container-number") {
            Some(ShipmentDetailReferenceType::ContainerNumber)
        } else if str_eq(name, "shipment-id") {
            Some(ShipmentDetailReferenceType::ShipmentId)
        } else if str_eq(name, "domestic-consignment-id") {
            Some(ShipmentDetailReferenceType::DomesticConsignmentId)
        } else if str_eq(name, "reference") {
            Some(ShipmentDetailReferenceType::Reference)
        } else {
            None
        }
    }

    /// No name is read as two different values.
    pub proof fn lemma_reads_one(
        a: ShipmentDetailReferenceType,
        b: ShipmentDetailReferenceType,
        name: Seq<char>,
    )
        requires
            a.reads(name),
            b.reads(name),
        ensures
            a == b,
    {
        reveal_strlit("customer-reference");
        reveal_strlit("customer-confirmation-number");
        reveal_strlit("local-tracking-number");
        reveal_strlit("ecommerce-number");
        reveal_strlit("housebill");
        reveal_strlit("masterbill");
        reveal_strlit("container-number");
        reveal_strlit("shipment-id");
        reveal_strlit("domestic-consignment-id");
        reveal_strlit("reference");
        assert("customer-reference"@.len() == 18 && "customer-reference"@[0] == 'c');
        assert({
            &&& "customer-confirmation-number"@.len() == 28
            &&& "customer-confirmation-number"@[0] == 'c'
        });
        assert("local-tracking-number"@.len() == 21 && "local-tracking-number"@[0] == 'l');
        assert("ecommerce-number"@.len() == 16 && "ecommerce-number"@[0] == 'e');
        assert("housebill"@.len() == 9 && "housebill"@[0] == 'h');
        assert("masterbill"@.len() == 10 && "masterbill"@[0] == 'm');
        assert("container-number"@.len() == 16 && "container-number"@[0] == 'c');
        assert("shipment-id"@.len() == 11 && "shipment-id"@[0] == 's');
        assert("domestic-consignment-id"@.len() == 23 && "domestic-consignment-id"@[0] == 'd');
        assert("reference"@.len() == 9 && "reference"@[0] == 'r');
    }
}

impl Decode for ShipmentDetailReferenceType {
    open spec fn accepts(value: Json) -> bool {
        value matches Json::Text(name) && exists|decoded: ShipmentDetailReferenceType|
            decoded.reads(name@)
    }

    open spec fn renders(value: Json, decoded: ShipmentDetailReferenceType) -> bool {
        value matches Json::Text(name) && decoded.reads(name@)
    }

    fn decode(value: &Json) -> (decoded: Option<ShipmentDetailReferenceType>) {
        match value {
            Json::Text(name) => ShipmentDetailReferenceType::from_wire(name.as_str()),
            _ => None,
        }
    }
}

/// Significant point in time during shipment processing.
#[derive(Debug, Clone)]
pub struct ShipmentEvent {
    pub timestamp: DateTime,
    pub location: Option<ShipmentPathPoint>,
    pub status_code: Option<ShipmentStatusCode>,
    pub status: Option<String>,
    pub description: String,
    pub piece_ids: Option<Vec<String>>,
    pub remark: Option<String>,
    pub next_steps: Option<String>,
}

impl Decode for ShipmentEvent {
    open spec fn accepts(value: Json) -> bool {
        &&& value is Object
        &&& DateTime::accepts(value.member_or_null("timestamp"@))
        &&& Option::<ShipmentPathPoint>::accepts(value.member_or_null("location"@))
        &&& Option::<ShipmentStatusCode>::accepts(value.member_or_null("statusCode"@))
        &&& Option::<String>::accepts(value.member_or_null("status"@))
        &&& String::accepts(value.member_or_null("description"@))
        &&& Option::<Vec<String>>::accepts(value.member_or_null("pieceIds"@))
        &&& Option::<String>::accepts(value.member_or_null("remark"@))
        &&& Option::<String>::accepts(value.member_or_null("nextSteps"@))
    }

    open spec fn renders(value: Json, decoded: ShipmentEvent) -> bool {
        &&& DateTime::renders(value.member_or_null("timestamp"@), decoded.timestamp)
        &&& Option::<ShipmentPathPoint>::renders(
            value.member_or_null("location"@),
            decoded.location,
        )
        &&& Option::<ShipmentStatusCode>::renders(
            value.member_or_null("statusCode"@),
            decoded.status_code,
        )
        &&& Option::<String>::renders(value.member_or_null("status"@), decoded.status)
        &&& String::renders(value.member_or_null("description"@), decoded.description)
        &&& Option::<Vec<String>>::renders(value.member_or_null("pieceIds"@), decoded.piece_ids)
        &&& Option::<String>::renders(value.member_or_null("remark"@), decoded.remark)
        &&& Option::<String>::renders(value.member_or_null("nextSteps"@), decoded.next_steps)
    }

    fn decode(value: &Json) -> (decoded: Option<ShipmentEvent>) {
        if !value.is_object() {
            return None;
        }
        let timestamp = decode_member::<DateTime>(value, "timestamp")?;
        let location = decode_member::<Option<ShipmentPathPoint>>(value, "location")?;
        let status_code = decode_member::<Option<ShipmentStatusCode>>(value, "statusCode")?;
        let status = decode_member::<Option<String>>(value, "status")?;
        let description = decode_member::<String>(value, "description")?;
        let piece_ids = decode_member::<Option<Vec<String>>>(value, "pieceIds")?;
        let remark = decode_member::<Option<String>>(value, "remark")?;
        let next_steps = decode_member::<Option<String>>(value, "nextSteps")?;
        Some(
            ShipmentEvent {
                timestamp,
                location,
                status_code,
                status,
                description,
                piece_ids,
                remark,
                next_steps,
            },
        )
    }
}

/// DHL Global Forwarding route.
///
/// Each member is read under its plain key, such as `dgfVesselName`, or
/// under its key in the namespace of DHL Global Forwarding, such as
/// `dgf:vesselName`.
#[derive(Debug, Clone)]
pub struct ShipmentDgfRoute {
    pub dgf_vessel_name: String,
    pub dgf_voyage_flight_number: String,
    pub dgf_airport_of_departure: ShipmentDgfLocation,
    pub dgf_airport_of_destination: ShipmentDgfLocation,
    pub dgf_estimated_departure_date: DateTime,
    pub dgf_estimated_arrival_date: DateTime,
    pub dgf_place_of_acceptance: ShipmentDgfSimpleLocation,
    pub dgf_port_of_loading: ShipmentDgfSimpleLocation,
    pub dgf_port_of_unloading: ShipmentDgfSimpleLocation,
    pub dgf_place_of_delivery: ShipmentDgfSimpleLocation,
}

impl Decode for ShipmentDgfRoute {
    open spec fn accepts(value: Json) -> bool {
        &&& value is Object
        &&& String::accepts(value.either_member_or_null("dgfVesselName"@, "dgf:vesselName"@))
        &&& String::accepts(
            value.either_member_or_null("dgfVoyageFlightNumber"@, "dgf:voyageFlightNumber"@),
        )
        &&& ShipmentDgfLocation::accepts(
            value.either_member_or_null("dgfAirportOfDeparture"@, "dgf:airportOfDeparture"@),
        )
        &&& ShipmentDgfLocation::accepts(
            value.either_member_or_null("dgfAirportOfDestination"@, "dgf:airportOfDestination"@),
        )
        &&& DateTime::accepts(
            value.either_member_or_null(
                "dgfEstimatedDepartureDate"@,
                "dgf:estimatedDepartureDate"@,
            ),
        )
        &&& DateTime::accepts(
            value.either_member_or_null("dgfEstimatedArrivalDate"@, "dgf:estimatedArrivalDate"@),
        )
        &&& ShipmentDgfSimpleLocation::accepts(
            value.either_member_or_null("dgfPlaceOfAcceptance"@, "dgf:placeOfAcceptance"@),
        )
        &&& ShipmentDgfSimpleLocation::accepts(
            value.either_member_or_null("dgfPortOfLoading"@, "dgf:portOfLoading"@),
        )
        &&& ShipmentDgfSimpleLocation::accepts(
            value.either_member_or_null("dgfPortOfUnloading"@, "dgf:portOfUnloading"@),
        )
        &&& ShipmentDgfSimpleLocation::accepts(
            value.either_member_or_null("dgfPlaceOfDelivery"@, "dgf:placeOfDelivery"@),
        )
    }

    open spec fn renders(value: Json, decoded: ShipmentDgfRoute) -> bool {
        &&& String::renders(
            value.either_member_or_null("dgfVesselName"@, "dgf:vesselName"@),
            decoded.dgf_vessel_name,
        )
        &&& String::renders(
            value.either_member_or_null("dgfVoyageFlightNumber"@, "dgf:voyageFlightNumber"@),
            decoded.dgf_voyage_flight_number,
        )
        &&& ShipmentDgfLocation::renders(
            value.either_member_or_null("dgfAirportOfDeparture"@, "dgf:airportOfDeparture"@),
            decoded.dgf_airport_of_departure,
        )
        &&& ShipmentDgfLocation::renders(
            value.either_member_or_null("dgfAirportOfDestination"@, "dgf:airportOfDestination"@),
            decoded.dgf_airport_of_destination,
        )
        &&& DateTime::renders(
            value.either_member_or_null(
                "dgfEstimatedDepartureDate"@,
                "dgf:estimatedDepartureDate"@,
            ),
            decoded.dgf_estimated_departure_date,
        )
        &&& DateTime::renders(
            value.either_member_or_null("dgfEstimatedArrivalDate"@, "dgf:estimatedArrivalDate"@),
            decoded.dgf_estimated_arrival_date,
        )
        &&& ShipmentDgfSimpleLocation::renders(
            value.either_member_or_null("dgfPlaceOfAcceptance"@, "dgf:placeOfAcceptance"@),
            decoded.dgf_place_of_acceptance,
        )
        &&& ShipmentDgfSimpleLocation::renders(
            value.either_member_or_null("dgfPortOfLoading"@, "dgf:portOfLoading"@),
            decoded.dgf_port_of_loading,
        )
        &&& ShipmentDgfSimpleLocation::renders(
            value.either_member_or_null("dgfPortOfUnloading"@, "dgf:portOfUnloading"@),
            decoded.dgf_port_of_unloading,
        )
        &&& ShipmentDgfSimpleLocation::renders(
            value.either_member_or_null("dgfPlaceOfDelivery"@, "dgf:placeOfDelivery"@),
            decoded.dgf_place_of_delivery,
        )
    }

    fn decode(value: &Json) -> (decoded: Option<ShipmentDgfRoute>) {
        if !value.is_object() {
            return None;
        }
        let dgf_vessel_name = decode_either_member::<String>(
            value,
            "dgfVesselName",
            "dgf:vesselName",
        )?;
        let dgf_voyage_flight_number = decode_either_member::<String>(
            value,
            "dgfVoyageFlightNumber",
            "dgf:voyageFlightNumber",
        )?;
        let dgf_airport_of_departure = decode_either_member::<ShipmentDgfLocation>(
            value,
            "dgfAirportOfDeparture",
            "dgf:airportOfDeparture",
        )?;
        let dgf_airport_of_destination = decode_either_member::<ShipmentDgfLocation>(
            value,
            "dgfAirportOfDestination",
            "dgf:airportOfDestination",
        )?;
        let dgf_estimated_departure_date = decode_either_member::<DateTime>(
            value,
            "dgfEstimatedDepartureDate",
            "dgf:estimatedDepartureDate",
        )?;
        let dgf_estimated_arrival_date = decode_either_member::<DateTime>(
            value,
            "dgfEstimatedArrivalDate",
            "dgf:estimatedArrivalDate",
        )?;
        let dgf_place_of_acceptance = decode_either_member::<ShipmentDgfSimpleLocation>(
            value,
            "dgfPlaceOfAcceptance",
            "dgf:placeOfAcceptance",
        )?;
        let dgf_port_of_loading = decode_either_member::<ShipmentDgfSimpleLocation>(
            value,
            "dgfPortOfLoading",
            "dgf:portOfLoading",
        )?;
        let dgf_port_of_unloading = decode_either_member::<ShipmentDgfSimpleLocation>(
            value,
            "dgfPortOfUnloading",
            "dgf:portOfUnloading",
        )?;
        let dgf_place_of_delivery = decode_either_member::<ShipmentDgfSimpleLocation>(
            value,
            "dgfPlaceOfDelivery",
            "dgf:placeOfDelivery",
        )?;
        Some(
            ShipmentDgfRoute {
                dgf_vessel_name,
                dgf_voyage_flight_number,
                dgf_airport_of_departure,
                dgf_airport_of_destination,
                dgf_estimated_departure_date,
                dgf_estimated_arrival_date,
                dgf_place_of_acceptance,
                dgf_port_of_loading,
                dgf_port_of_unloading,
                dgf_place_of_delivery,
            },
        )
    }
}

/// Stop on a [`ShipmentDgfRoute`].
#[derive(Debug, Clone)]
pub struct ShipmentDgfLocation {
    pub dgf_location_name: String,
    pub dgf_location_code: String,
    pub country_code: Option<CountryCode>,
}

impl Decode for ShipmentDgfLocation {
    open spec fn accepts(value: Json) -> bool {
        &&& value is Object
        &&& String::accepts(value.either_member_or_null("dgfLocationName"@, "dgf:locationName"@))
        &&& String::accepts(value.either_member_or_null("dgfLocationCode"@, "dgf:locationCode"@))
        &&& Option::<CountryCode>::accepts(value.member_or_null("countryCode"@))
    }

    open spec fn renders(value: Json, decoded: ShipmentDgfLocation) -> bool {
        &&& String::renders(
            value.either_member_or_null("dgfLocationName"@, "dgf:locationName"@),
            decoded.dgf_location_name,
        )
        &&& String::renders(
            value.either_member_or_null("dgfLocationCode"@, "dgf:locationCode"@),
            decoded.dgf_location_code,
        )
        &&& Option::<CountryCode>::renders(
            value.member_or_null("countryCode"@),
            decoded.country_code,
        )
    }

    fn decode(value: &Json) -> (decoded: Option<ShipmentDgfLocation>) {
        if !value.is_object() {
            return None;
        }
        let dgf_location_name = decode_either_member::<String>(
            value,
            "dgfLocationName",
            "dgf:locationName",
        )?;
        let dgf_location_code = decode_either_member::<String>(
            value,
            "dgfLocationCode",
            "dgf:locationCode",
        )?;
        let country_code = decode_member::<Option<CountryCode>>(value, "countryCode")?;
        Some(ShipmentDgfLocation { dgf_location_name, dgf_location_code, country_code })
    }
}

/// A named place on a [`ShipmentDgfRoute`].
#[derive(Debug, Clone)]
pub struct ShipmentDgfSimpleLocation {
    pub dgf_location_name: String,
}

impl Decode for ShipmentDgfSimpleLocation {
    open spec fn accepts(value: Json) -> bool {
        &&& value is Object
        &&& String::accepts(value.either_member_or_null("dgfLocationName"@, "dgf:locationName"@))
    }

    open spec fn renders(value: Json, decoded: ShipmentDgfSimpleLocation) -> bool {
        &&& String::renders(
            value.either_member_or_null("dgfLocationName"@, "dgf:locationName"@),
            decoded.dgf_location_name,
        )
    }

    fn decode(value: &Json) -> (decoded: Option<ShipmentDgfSimpleLocation>) {
        if !value.is_object() {
            return None;
        }
        let dgf_location_name = decode_either_member::<String>(
            value,
            "dgfLocationName",
            "dgf:locationName",
        )?;
        Some(ShipmentDgfSimpleLocation { dgf_location_name })
    }
}

} // verus!
