//! Plain bindings of DHL's "Location Finder - Unified" API. They share the
//! requests' URLs and the vocabulary of
//! [`location_finder`](super::location_finder), take integers of 64 bits
//! for the radius and the limit, and read responses in which the closure
//! periods and the kind of a location stay text.

use vstd::prelude::*;
use vstd::string::StringExecFns;

use super::location_finder::{
    find_by_address_url, find_by_address_url_str, find_by_geo_url, find_by_geo_url_str,
    find_by_keyword_id_url, find_by_keyword_id_url_str, locations_url, locations_url_str,
};
use super::{missing_credentials, prepared, HttpGet};
use crate::decode::{decode_either_member, decode_member, Decode};
use crate::error::DhlError;
use crate::json::Json;
use crate::number::Decimal;
use crate::query::{
    bool_member, bool_value, camel_case, decimal_member, fields_of, lemma_fields_by_index,
    name_member, names_ascend, one_if_set, pairs_below, parts_at, precedes, present_below,
    query_text, signed_member, signed_value, text_member, text_of, text_value, wire_pairs, Field,
    FieldValue, Pair,
};
use crate::text::str_eq;

pub use super::location_finder::{
    ApiMode, Geo, LocationType, OpeningHours, ProviderType, ServicePointLocationId, Weekday,
};
pub use super::{CountryCode, ServiceType};
pub use crate::query::serializable_to_url_params;

verus! {

/// API struct for calling DHL's "Location Finder - Unified" API.
pub struct LocationFinderUnifiedApi {
    api_mode: ApiMode,
    api_key: String,
}

impl LocationFinderUnifiedApi {
    /// The mode that decides which base URL is called.
    pub closed spec fn api_mode(&self) -> ApiMode {
        self.api_mode
    }

    /// The API key; empty where none is configured.
    pub closed spec fn api_key(&self) -> Seq<char> {
        self.api_key@
    }

    /// Creates a new API. An empty `api_key` stands for no key.
    pub fn new(api_mode: ApiMode, api_key: String) -> (api: LocationFinderUnifiedApi)
        ensures
            api.api_mode() == api_mode,
            api.api_key() == api_key@,
    {
        LocationFinderUnifiedApi { api_mode, api_key }
    }

    /// The first half of a call: the HTTP GET for `request`, or
    /// `MissingCredentials` where the API has no key.
    pub fn prepare<T: LocationFinderUnifiedRequest>(&self, request: &T) -> (outcome: Result<
        HttpGet,
        DhlError,
    >)
        ensures
            prepared(self.api_key(), request.url_text(self.api_mode()), outcome),
    {
        if self.api_key.as_str().is_empty() {
            return Err(missing_credentials("Location Finder API"));
        }
        match request.url(&self.api_mode) {
            Ok(url) => Ok(HttpGet { url, api_key: self.api_key.clone() }),
            Err(error) => Err(error),
        }
    }
}

/// A trait all request structs must implement in order to be sent via the
/// [`LocationFinderUnifiedApi`].
pub trait LocationFinderUnifiedRequest {
    /// What the API answers the request with.
    type Response;

    /// The URL of the request, if it has one.
    spec fn url_text(&self, api_mode: ApiMode) -> Option<Seq<char>>;

    /// The URL of the request, or the error for which it has none.
    fn url(&self, api_mode: &ApiMode) -> (url: Result<String, DhlError>)
        ensures
            match url {
                Ok(text) => self.url_text(*api_mode) == Some(text@),
                Err(_) => self.url_text(*api_mode) is None,
            },
    ;
}

/// The shape of a failure, with a status of 64 bits.
#[derive(Debug, Clone)]
pub struct ResponseNotOk {
    pub status: i64,
    pub title: String,
    pub detail: String,
}

impl Decode for ResponseNotOk {
    open spec fn accepts(value: Json) -> bool {
        &&& value is Object
        &&& i64::accepts(value.member_or_null("status"@))
        &&& String::accepts(value.member_or_null("title"@))
        &&& String::accepts(value.member_or_null("detail"@))
    }

    open spec fn renders(value: Json, decoded: ResponseNotOk) -> bool {
        &&& i64::renders(value.member_or_null("status"@), decoded.status)
        &&& String::renders(value.member_or_null("title"@), decoded.title)
        &&& String::renders(value.member_or_null("detail"@), decoded.detail)
    }

    fn decode(value: &Json) -> (decoded: Option<ResponseNotOk>) {
        if !value.is_object() {
            return None;
        }
        let status = decode_member::<i64>(value, "status")?;
        let title = decode_member::<String>(value, "title")?;
        let detail = decode_member::<String>(value, "detail")?;
        Some(ResponseNotOk { status, title, detail })
    }
}

/// Parameters of the GET request returning service point locations by address.
#[derive(Debug, Clone)]
pub struct GetSplsByAddressRequest {
    country_code: CountryCode,
    address_locality: Option<String>,
    postal_code: Option<String>,
    street_address: Option<String>,
    provider_type: Option<ProviderType>,
    location_type: Option<LocationType>,
    service_type: Option<ServiceType>,
    radius: Option<i64>,
    limit: Option<i64>,
    hide_closed_locations: Option<bool>,
}

/// What a `GetSplsByAddressRequest` holds.
pub struct GetSplsByAddressRequestView {
    pub country_code: CountryCode,
    pub address_locality: Option<Seq<char>>,
    pub postal_code: Option<Seq<char>>,
    pub street_address: Option<Seq<char>>,
    pub provider_type: Option<ProviderType>,
    pub location_type: Option<LocationType>,
    pub service_type: Option<ServiceType>,
    pub radius: Option<i64>,
    pub limit: Option<i64>,
    pub hide_closed_locations: Option<bool>,
}

impl View for GetSplsByAddressRequest {
    type V = GetSplsByAddressRequestView;

    closed spec fn view(&self) -> GetSplsByAddressRequestView {
        GetSplsByAddressRequestView {
            country_code: self.country_code,
            address_locality: text_of(self.address_locality),
            postal_code: text_of(self.postal_code),
            street_address: text_of(self.street_address),
            provider_type: self.provider_type,
            location_type: self.location_type,
            service_type: self.service_type,
            radius: self.radius,
            limit: self.limit,
            hide_closed_locations: self.hide_closed_locations,
        }
    }
}

impl GetSplsByAddressRequest {
    /// A request with its required parameters. No optional parameter is
    /// set.
    pub fn new(country_code: CountryCode) -> (request: GetSplsByAddressRequest)
        ensures
            request@ == (GetSplsByAddressRequestView {
                country_code: country_code,
                address_locality: None,
                postal_code: None,
                street_address: None,
                provider_type: None,
                location_type: None,
                service_type: None,
                radius: None,
                limit: None,
                hide_closed_locations: None,
            }),
    {
        GetSplsByAddressRequest {
            country_code,
            address_locality: None,
            postal_code: None,
            street_address: None,
            provider_type: None,
            location_type: None,
            service_type: None,
            radius: None,
            limit: None,
            hide_closed_locations: None,
        }
    }

    /// Sets or clears `address_locality`.
    pub fn address_locality(self, value: Option<String>) -> (request: GetSplsByAddressRequest)
        ensures
            request@ == (GetSplsByAddressRequestView { address_locality: text_of(value), ..self@ }),
    {
        let mut request = self;
        request.address_locality = value;
        request
    }

    /// Sets or clears `postal_code`.
    pub fn postal_code(self, value: Option<String>) -> (request: GetSplsByAddressRequest)
        ensures
            request@ == (GetSplsByAddressRequestView { postal_code: text_of(value), ..self@ }),
    {
        let mut request = self;
        request.postal_code = value;
        request
    }

    /// Sets or clears `street_address`.
    pub fn street_address(self, value: Option<String>) -> (request: GetSplsByAddressRequest)
        ensures
            request@ == (GetSplsByAddressRequestView { street_address: text_of(value), ..self@ }),
    {
        let mut request = self;
        request.street_address = value;
        request
    }

    /// Sets or clears `provider_type`.
    pub fn provider_type(self, value: Option<ProviderType>) -> (request: GetSplsByAddressRequest)
        ensures
            request@ == (GetSplsByAddressRequestView { provider_type: value, ..self@ }),
    {
        let mut request = self;
        request.provider_type = value;
        request
    }

    /// Sets or clears `location_type`.
    pub fn location_type(self, value: Option<LocationType>) -> (request: GetSplsByAddressRequest)
        ensures
            request@ == (GetSplsByAddressRequestView { location_type: value, ..self@ }),
    {
        let mut request = self;
        request.location_type = value;
        request
    }

    /// Sets or clears `service_type`.
    pub fn service_type(self, value: Option<ServiceType>) -> (request: GetSplsByAddressRequest)
        ensures
            request@ == (GetSplsByAddressRequestView { service_type: value, ..self@ }),
    {
        let mut request = self;
        request.service_type = value;
        request
    }

    /// Sets or clears `radius`.
    pub fn radius(self, value: Option<i64>) -> (request: GetSplsByAddressRequest)
        ensures
            request@ == (GetSplsByAddressRequestView { radius: value, ..self@ }),
    {
        let mut request = self;
        request.radius = value;
        request
    }

    /// Sets or clears `limit`.
    pub fn limit(self, value: Option<i64>) -> (request: GetSplsByAddressRequest)
        ensures
            request@ == (GetSplsByAddressRequestView { limit: value, ..self@ }),
    {
        let mut request = self;
        request.limit = value;
        request
    }

    /// Sets or clears `hide_closed_locations`.
    pub fn hide_closed_locations(self, value: Option<bool>) -> (request: GetSplsByAddressRequest)
        ensures
            request@ == (GetSplsByAddressRequestView { hide_closed_locations: value, ..self@ }),
    {
        let mut request = self;
        request.hide_closed_locations = value;
        request
    }

    /// The fields of the request, in the order in which they are
    /// serialized: by name.
    pub open spec fn fields(&self) -> Seq<Field> {
        seq![
            ("address_locality"@, text_value(self@.address_locality)),
            ("country_code"@, FieldValue::Text(self@.country_code.wire())),
            ("hide_closed_locations"@, bool_value(self@.hide_closed_locations)),
            ("limit"@, signed_value(self@.limit)),
            ("location_type"@, text_value(
                match self@.location_type {
                    Some(name) => Some(name.wire()),
                    None => None,
                },
            )),
            ("postal_code"@, text_value(self@.postal_code)),
            ("provider_type"@, text_value(
                match self@.provider_type {
                    Some(name) => Some(name.wire()),
                    None => None,
                },
            )),
            ("radius"@, signed_value(self@.radius)),
            ("service_type"@, text_value(
                match self@.service_type {
                    Some(name) => Some(name.wire()),
                    None => None,
                },
            )),
            ("street_address"@, text_value(self@.street_address)),
        ]
    }

    /// The number of optional parameters that are set.
    pub open spec fn optional_count(&self) -> nat {
        one_if_set(self@.address_locality)
            + one_if_set(self@.postal_code)
            + one_if_set(self@.street_address)
            + one_if_set(self@.provider_type)
            + one_if_set(self@.location_type)
            + one_if_set(self@.service_type)
            + one_if_set(self@.radius)
            + one_if_set(self@.limit)
            + one_if_set(self@.hide_closed_locations)
    }

    /// The request as an object: one member for each field, in the order
    /// of `fields`, holding a string, a number or a boolean where the
    /// field is set and a null where it is not.
    pub fn to_value(&self) -> (value: Json)
        ensures
            value matches Json::Object(members) && fields_of(members@) == self.fields(),
    {
        let mut members: Vec<(String, Json)> = Vec::new();
        members.push(text_member("address_locality", &self.address_locality));
        let country_code = self.country_code.wire_name();
        members.push(name_member("country_code", Some(country_code.as_str())));
        members.push(bool_member("hide_closed_locations", self.hide_closed_locations));
        members.push(signed_member("limit", self.limit));
        let location_type: Option<&str> = match self.location_type {
            Some(name) => Some(name.wire_name()),
            None => None,
        };
        members.push(name_member("location_type", location_type));
        members.push(text_member("postal_code", &self.postal_code));
        let provider_type: Option<&str> = match self.provider_type {
            Some(name) => Some(name.wire_name()),
            None => None,
        };
        members.push(name_member("provider_type", provider_type));
        members.push(signed_member("radius", self.radius));
        let service_type: Option<&str> = match self.service_type {
            Some(name) => Some(name.wire_name()),
            None => None,
        };
        members.push(name_member("service_type", service_type));
        members.push(text_member("street_address", &self.street_address));
        assert(fields_of(members@) =~= self.fields());
        Json::Object(members)
    }

    /// The query string of the request holds one pair for each required
    /// parameter and one for each optional parameter that is set.
    #[verifier::rlimit(30)]
    pub proof fn lemma_pair_count(&self)
        ensures
            wire_pairs(self.fields()).len() == 1 + self.optional_count(),
    {
        lemma_fields_by_index(self.fields());
        crate::query::lemma_pair_count(self.fields());
        reveal_with_fuel(present_below, 11);
    }

    /// The pairs of the required parameters, which every query string of
    /// the request holds.
    pub open spec fn required_pairs(&self) -> Seq<Pair> {
        seq![
            (camel_case("country_code"@), self@.country_code.wire()),
        ]
    }

    /// With no optional parameter set, the query string of the request
    /// holds the pairs of the required parameters and no other.
    #[verifier::rlimit(30)]
    pub proof fn lemma_required_pairs(&self)
        requires
            self.optional_count() == 0,
        ensures
            wire_pairs(self.fields()) == self.required_pairs(),
    {
        lemma_fields_by_index(self.fields());
        reveal_with_fuel(pairs_below, 11);
        assert(pairs_below(self.fields(), 10) =~= self.required_pairs());
    }

    /// The fields stand in the order of their names, each name once.
    pub proof fn lemma_names_ascend(&self)
        ensures
            names_ascend(self.fields()),
    {
        reveal_strlit("address_locality");
        reveal_strlit("country_code");
        reveal_strlit("hide_closed_locations");
        reveal_strlit("limit");
        reveal_strlit("location_type");
        reveal_strlit("postal_code");
        reveal_strlit("provider_type");
        reveal_strlit("radius");
        reveal_strlit("service_type");
        reveal_strlit("street_address");
        let fields = self.fields();
        assert forall|i: int| 0 <= i < fields.len() - 1 implies precedes(
            #[trigger] fields[i].0,
            fields[i + 1].0,
        ) by {
            if i == 0 {
                assert("address_locality"@[0] == 'a');
                assert("country_code"@[0] == 'c');
                assert(parts_at("address_locality"@, "country_code"@, 0));
            } else if i == 1 {
                assert("country_code"@[0] == 'c');
                assert("hide_closed_locations"@[0] == 'h');
                assert(parts_at("country_code"@, "hide_closed_locations"@, 0));
            } else if i == 2 {
                assert("hide_closed_locations"@[0] == 'h');
                assert("limit"@[0] == 'l');
                assert(parts_at("hide_closed_locations"@, "limit"@, 0));
            } else if i == 3 {
                assert("limit"@[0] == 'l');
                assert("location_type"@[0] == 'l');
                assert("limit"@[1] == 'i');
                assert("location_type"@[1] == 'o');
                assert(parts_at("limit"@, "location_type"@, 1));
            } else if i == 4 {
                assert("location_type"@[0] == 'l');
                assert("postal_code"@[0] == 'p');
                assert(parts_at("location_type"@, "postal_code"@, 0));
            } else if i == 5 {
                assert("postal_code"@[0] == 'p');
                assert("provider_type"@[0] == 'p');
                assert("postal_code"@[1] == 'o');
                assert("provider_type"@[1] == 'r');
                assert(parts_at("postal_code"@, "provider_type"@, 1));
            } else if i == 6 {
                assert("provider_type"@[0] == 'p');
                assert("radius"@[0] == 'r');
                assert(parts_at("provider_type"@, "radius"@, 0));
            } else if i == 7 {
                assert("radius"@[0] == 'r');
                assert("service_type"@[0] == 's');
                assert(parts_at("radius"@, "service_type"@, 0));
            } else {
                assert("service_type"@[0] == 's');
                assert("street_address"@[0] == 's');
                assert("service_type"@[1] == 'e');
                assert("street_address"@[1] == 't');
                assert(parts_at("service_type"@, "street_address"@, 1));
            }
        }
    }
}

impl LocationFinderUnifiedRequest for GetSplsByAddressRequest {
    type Response = GetSplsResponse;

    open spec fn url_text(&self, api_mode: ApiMode) -> Option<Seq<char>> {
        Some(find_by_address_url(api_mode) + query_text(wire_pairs(self.fields())))
    }

    fn url(&self, api_mode: &ApiMode) -> (url: Result<String, DhlError>) {
        let mut url = String::from_str(find_by_address_url_str(api_mode));
        let query = serializable_to_url_params(&self.to_value());
        url.append(query.as_str());
        Ok(url)
    }
}

/// Parameters of the GET request returning service point locations by coordinates.
#[derive(Debug, Clone)]
pub struct GetSplsByGeoRequest {
    latitude: Decimal,
    longitude: Decimal,
    provider_type: Option<ProviderType>,
    location_type: Option<LocationType>,
    service_type: Option<ServiceType>,
    radius: Option<i64>,
    limit: Option<i64>,
    hide_closed_locations: Option<bool>,
}

/// What a `GetSplsByGeoRequest` holds.
pub struct GetSplsByGeoRequestView {
    pub latitude: Seq<char>,
    pub longitude: Seq<char>,
    pub provider_type: Option<ProviderType>,
    pub location_type: Option<LocationType>,
    pub service_type: Option<ServiceType>,
    pub radius: Option<i64>,
    pub limit: Option<i64>,
    pub hide_closed_locations: Option<bool>,
}

impl View for GetSplsByGeoRequest {
    type V = GetSplsByGeoRequestView;

    closed spec fn view(&self) -> GetSplsByGeoRequestView {
        GetSplsByGeoRequestView {
            latitude: self.latitude@,
            longitude: self.longitude@,
            provider_type: self.provider_type,
            location_type: self.location_type,
            service_type: self.service_type,
            radius: self.radius,
            limit: self.limit,
            hide_closed_locations: self.hide_closed_locations,
        }
    }
}

impl GetSplsByGeoRequest {
    /// A request with its required parameters. No optional parameter is
    /// set.
    pub fn new(latitude: Decimal, longitude: Decimal) -> (request: GetSplsByGeoRequest)
        ensures
            request@ == (GetSplsByGeoRequestView {
                latitude: latitude@,
                longitude: longitude@,
                provider_type: None,
                location_type: None,
                service_type: None,
                radius: None,
                limit: None,
                hide_closed_locations: None,
            }),
    {
        GetSplsByGeoRequest {
            latitude,
            longitude,
            provider_type: None,
            location_type: None,
            service_type: None,
            radius: None,
            limit: None,
            hide_closed_locations: None,
        }
    }

    /// Sets or clears `provider_type`.
    pub fn provider_type(self, value: Option<ProviderType>) -> (request: GetSplsByGeoRequest)
        ensures
            request@ == (GetSplsByGeoRequestView { provider_type: value, ..self@ }),
    {
        let mut request = self;
        request.provider_type = value;
        request
    }

    /// Sets or clears `location_type`.
    pub fn location_type(self, value: Option<LocationType>) -> (request: GetSplsByGeoRequest)
        ensures
            request@ == (GetSplsByGeoRequestView { location_type: value, ..self@ }),
    {
        let mut request = self;
        request.location_type = value;
        request
    }

    /// Sets or clears `service_type`.
    pub fn service_type(self, value: Option<ServiceType>) -> (request: GetSplsByGeoRequest)
        ensures
            request@ == (GetSplsByGeoRequestView { service_type: value, ..self@ }),
    {
        let mut request = self;
        request.service_type = value;
        request
    }

    /// Sets or clears `radius`.
    pub fn radius(self, value: Option<i64>) -> (request: GetSplsByGeoRequest)
        ensures
            request@ == (GetSplsByGeoRequestView { radius: value, ..self@ }),
    {
        let mut request = self;
        request.radius = value;
        request
    }

    /// Sets or clears `limit`.
    pub fn limit(self, value: Option<i64>) -> (request: GetSplsByGeoRequest)
        ensures
            request@ == (GetSplsByGeoRequestView { limit: value, ..self@ }),
    {
        let mut request = self;
        request.limit = value;
        request
    }

    /// Sets or clears `hide_closed_locations`.
    pub fn hide_closed_locations(self, value: Option<bool>) -> (request: GetSplsByGeoRequest)
        ensures
            request@ == (GetSplsByGeoRequestView { hide_closed_locations: value, ..self@ }),
    {
        let mut request = self;
        request.hide_closed_locations = value;
        request
    }

    /// The fields of the request, in the order in which they are
    /// serialized: by name.
    pub open spec fn fields(&self) -> Seq<Field> {
        seq![
            ("hide_closed_locations"@, bool_value(self@.hide_closed_locations)),
            ("latitude"@, FieldValue::Number(self@.latitude)),
            ("limit"@, signed_value(self@.limit)),
            ("location_type"@, text_value(
                match self@.location_type {
                    Some(name) => Some(name.wire()),
                    None => None,
                },
            )),
            ("longitude"@, FieldValue::Number(self@.longitude)),
            ("provider_type"@, text_value(
                match self@.provider_type {
                    Some(name) => Some(name.wire()),
                    None => None,
                },
            )),
            ("radius"@, signed_value(self@.radius)),
            ("service_type"@, text_value(
                match self@.service_type {
                    Some(name) => Some(name.wire()),
                    None => None,
                },
            )),
        ]
    }

    /// The number of optional parameters that are set.
    pub open spec fn optional_count(&self) -> nat {
        one_if_set(self@.provider_type)
            + one_if_set(self@.location_type)
            + one_if_set(self@.service_type)
            + one_if_set(self@.radius)
            + one_if_set(self@.limit)
            + one_if_set(self@.hide_closed_locations)
    }

    /// The request as an object: one member for each field, in the order
    /// of `fields`, holding a string, a number or a boolean where the
    /// field is set and a null where it is not.
    pub fn to_value(&self) -> (value: Json)
        ensures
            value matches Json::Object(members) && fields_of(members@) == self.fields(),
    {
        let mut members: Vec<(String, Json)> = Vec::new();
        members.push(bool_member("hide_closed_locations", self.hide_closed_locations));
        members.push(decimal_member("latitude", &self.latitude));
        members.push(signed_member("limit", self.limit));
        let location_type: Option<&str> = match self.location_type {
            Some(name) => Some(name.wire_name()),
            None => None,
        };
        members.push(name_member("location_type", location_type));
        members.push(decimal_member("longitude", &self.longitude));
        let provider_type: Option<&str> = match self.provider_type {
            Some(name) => Some(name.wire_name()),
            None => None,
        };
        members.push(name_member("provider_type", provider_type));
        members.push(signed_member("radius", self.radius));
        let service_type: Option<&str> = match self.service_type {
            Some(name) => Some(name.wire_name()),
            None => None,
        };
        members.push(name_member("service_type", service_type));
        assert(fields_of(members@) =~= self.fields());
        Json::Object(members)
    }

    /// The query string of the request holds one pair for each required
    /// parameter and one for each optional parameter that is set.
    pub proof fn lemma_pair_count(&self)
        ensures
            wire_pairs(self.fields()).len() == 2 + self.optional_count(),
    {
        lemma_fields_by_index(self.fields());
        crate::query::lemma_pair_count(self.fields());
        reveal_with_fuel(present_below, 9);
    }

    /// The pairs of the required parameters, which every query string of
    /// the request holds.
    pub open spec fn required_pairs(&self) -> Seq<Pair> {
        seq![
            (camel_case("latitude"@), self@.latitude),
            (camel_case("longitude"@), self@.longitude),
        ]
    }

    /// With no optional parameter set, the query string of the request
    /// holds the pairs of the required parameters and no other.
    pub proof fn lemma_required_pairs(&self)
        requires
            self.optional_count() == 0,
        ensures
            wire_pairs(self.fields()) == self.required_pairs(),
    {
        lemma_fields_by_index(self.fields());
        reveal_with_fuel(pairs_below, 9);
        assert(pairs_below(self.fields(), 8) =~= self.required_pairs());
    }

    /// The fields stand in the order of their names, each name once.
    pub proof fn lemma_names_ascend(&self)
        ensures
            names_ascend(self.fields()),
    {
        reveal_strlit("hide_closed_locations");
        reveal_strlit("latitude");
        reveal_strlit("limit");
        reveal_strlit("location_type");
        reveal_strlit("longitude");
        reveal_strlit("provider_type");
        reveal_strlit("radius");
        reveal_strlit("service_type");
        let fields = self.fields();
        assert forall|i: int| 0 <= i < fields.len() - 1 implies precedes(
            #[trigger] fields[i].0,
            fields[i + 1].0,
        ) by {
            if i == 0 {
                assert("hide_closed_locations"@[0] == 'h');
                assert("latitude"@[0] == 'l');
                assert(parts_at("hide_closed_locations"@, "latitude"@, 0));
            } else if i == 1 {
                assert("latitude"@[0] == 'l');
                assert("limit"@[0] == 'l');
                assert("latitude"@[1] == 'a');
                assert("limit"@[1] == 'i');
                assert(parts_at("latitude"@, "limit"@, 1));
            } else if i == 2 {
                assert("limit"@[0] == 'l');
                assert("location_type"@[0] == 'l');
                assert("limit"@[1] == 'i');
                assert("location_type"@[1] == 'o');
                assert(parts_at("limit"@, "location_type"@, 1));
            } else if i == 3 {
                assert("location_type"@[0] == 'l');
                assert("longitude"@[0] == 'l');
                assert("location_type"@[1] == 'o');
                assert("longitude"@[1] == 'o');
                assert("location_type"@[2] == 'c');
                assert("longitude"@[2] == 'n');
                assert(parts_at("location_type"@, "longitude"@, 2));
            } else if i == 4 {
                assert("longitude"@[0] == 'l');
                assert("provider_type"@[0] == 'p');
                assert(parts_at("longitude"@, "provider_type"@, 0));
            } else if i == 5 {
                assert("provider_type"@[0] == 'p');
                assert("radius"@[0] == 'r');
                assert(parts_at("provider_type"@, "radius"@, 0));
            } else {
                assert("radius"@[0] == 'r');
                assert("service_type"@[0] == 's');
                assert(parts_at("radius"@, "service_type"@, 0));
            }
        }
    }
}

impl LocationFinderUnifiedRequest for GetSplsByGeoRequest {
    type Response = GetSplsResponse;

    open spec fn url_text(&self, api_mode: ApiMode) -> Option<Seq<char>> {
        Some(find_by_geo_url(api_mode) + query_text(wire_pairs(self.fields())))
    }

    fn url(&self, api_mode: &ApiMode) -> (url: Result<String, DhlError>) {
        let mut url = String::from_str(find_by_geo_url_str(api_mode));
        let query = serializable_to_url_params(&self.to_value());
        url.append(query.as_str());
        Ok(url)
    }
}

/// Parameters of the GET request returning a service point location by keyword id.
#[derive(Debug, Clone)]
pub struct GetSplByKeywordIdRequest {
    keyword_id: String,
    country_code: CountryCode,
    postal_code: String,
}

/// What a `GetSplByKeywordIdRequest` holds.
pub struct GetSplByKeywordIdRequestView {
    pub keyword_id: Seq<char>,
    pub country_code: CountryCode,
    pub postal_code: Seq<char>,
}

impl View for GetSplByKeywordIdRequest {
    type V = GetSplByKeywordIdRequestView;

    closed spec fn view(&self) -> GetSplByKeywordIdRequestView {
        GetSplByKeywordIdRequestView {
            keyword_id: self.keyword_id@,
            country_code: self.country_code,
            postal_code: self.postal_code@,
        }
    }
}

impl GetSplByKeywordIdRequest {
    /// A request with its parameters.
    pub fn new(
        keyword_id: String,
        country_code: CountryCode,
        postal_code: String,
    ) -> (request: GetSplByKeywordIdRequest)
        ensures
            request@ == (GetSplByKeywordIdRequestView {
                keyword_id: keyword_id@,
                country_code: country_code,
                postal_code: postal_code@,
            }),
    {
        GetSplByKeywordIdRequest {
            keyword_id,
            country_code,
            postal_code,
        }
    }

    /// The fields of the request, in the order in which they are
    /// serialized: by name.
    pub open spec fn fields(&self) -> Seq<Field> {
        seq![
            ("country_code"@, FieldValue::Text(self@.country_code.wire())),
            ("keyword_id"@, FieldValue::Text(self@.keyword_id)),
            ("postal_code"@, FieldValue::Text(self@.postal_code)),
        ]
    }

    /// The number of optional parameters that are set.
    pub open spec fn optional_count(&self) -> nat {
        0
    }

    /// The request as an object: one member for each field, in the order
    /// of `fields`, holding a string, a number or a boolean where the
    /// field is set and a null where it is not.
    pub fn to_value(&self) -> (value: Json)
        ensures
            value matches Json::Object(members) && fields_of(members@) == self.fields(),
    {
        let mut members: Vec<(String, Json)> = Vec::new();
        let country_code = self.country_code.wire_name();
        members.push(name_member("country_code", Some(country_code.as_str())));
        members.push(name_member("keyword_id", Some(self.keyword_id.as_str())));
        members.push(name_member("postal_code", Some(self.postal_code.as_str())));
        assert(fields_of(members@) =~= self.fields());
        Json::Object(members)
    }

    /// The query string of the request holds one pair for each required
    /// parameter and one for each optional parameter that is set.
    pub proof fn lemma_pair_count(&self)
        ensures
            wire_pairs(self.fields()).len() == 3 + self.optional_count(),
    {
        lemma_fields_by_index(self.fields());
        crate::query::lemma_pair_count(self.fields());
        reveal_with_fuel(present_below, 4);
    }

    /// The pairs of the required parameters, which every query string of
    /// the request holds.
    pub open spec fn required_pairs(&self) -> Seq<Pair> {
        seq![
            (camel_case("country_code"@), self@.country_code.wire()),
            (camel_case("keyword_id"@), self@.keyword_id),
            (camel_case("postal_code"@), self@.postal_code),
        ]
    }

    /// The query string of the request holds the pairs of its parameters.
    pub proof fn lemma_required_pairs(&self)
        ensures
            wire_pairs(self.fields()) == self.required_pairs(),
    {
        lemma_fields_by_index(self.fields());
        reveal_with_fuel(pairs_below, 4);
        assert(pairs_below(self.fields(), 3) =~= self.required_pairs());
    }

    /// The fields stand in the order of their names, each name once.
    pub proof fn lemma_names_ascend(&self)
        ensures
            names_ascend(self.fields()),
    {
        reveal_strlit("country_code");
        reveal_strlit("keyword_id");
        reveal_strlit("postal_code");
        let fields = self.fields();
        assert forall|i: int| 0 <= i < fields.len() - 1 implies precedes(
            #[trigger] fields[i].0,
            fields[i + 1].0,
        ) by {
            if i == 0 {
                assert("country_code"@[0] == 'c');
                assert("keyword_id"@[0] == 'k');
                assert(parts_at("country_code"@, "keyword_id"@, 0));
            } else {
                assert("keyword_id"@[0] == 'k');
                assert("postal_code"@[0] == 'p');
                assert(parts_at("keyword_id"@, "postal_code"@, 0));
            }
        }
    }
}

impl LocationFinderUnifiedRequest for GetSplByKeywordIdRequest {
    type Response = GetSplResponse;

    open spec fn url_text(&self, api_mode: ApiMode) -> Option<Seq<char>> {
        Some(find_by_keyword_id_url(api_mode) + query_text(wire_pairs(self.fields())))
    }

    fn url(&self, api_mode: &ApiMode) -> (url: Result<String, DhlError>) {
        let mut url = String::from_str(find_by_keyword_id_url_str(api_mode));
        let query = serializable_to_url_params(&self.to_value());
        url.append(query.as_str());
        Ok(url)
    }
}

/// Parameters of the GET request returning a service point location by id.
#[derive(Debug, Clone)]
pub struct GetSplByIdRequest {
    id: String,
}

/// What a `GetSplByIdRequest` holds.
pub struct GetSplByIdRequestView {
    pub id: Seq<char>,
}

impl View for GetSplByIdRequest {
    type V = GetSplByIdRequestView;

    closed spec fn view(&self) -> GetSplByIdRequestView {
        GetSplByIdRequestView {
            id: self.id@,
        }
    }
}

impl GetSplByIdRequest {
    /// A request with its parameters.
    pub fn new(id: String) -> (request: GetSplByIdRequest)
        ensures
            request@ == (GetSplByIdRequestView {
                id: id@,
            }),
    {
        GetSplByIdRequest {
            id,
        }
    }
}

impl LocationFinderUnifiedRequest for GetSplByIdRequest {
    type Response = GetSplResponse;

    open spec fn url_text(&self, api_mode: ApiMode) -> Option<Seq<char>> {
        Some(locations_url(api_mode) + seq!['/'] + self@.id)
    }

    fn url(&self, api_mode: &ApiMode) -> (url: Result<String, DhlError>) {
        let mut url = String::from_str(locations_url_str(api_mode));
        proof {
            reveal_strlit("/");
        }
        url.append("/");
        url.append(self.id.as_str());
        assert(url@ =~= locations_url(*api_mode) + seq!['/'] + self@.id);
        Ok(url)
    }
}

/// A successful response holding a list of service point locations.
#[derive(Debug, Clone)]
pub struct GetSplsResponse {
    pub locations: Vec<ServicePoint>,
}

impl Decode for GetSplsResponse {
    open spec fn accepts(value: Json) -> bool {
        &&& value is Object
        &&& Vec::<ServicePoint>::accepts(value.member_or_null("locations"@))
    }

    open spec fn renders(value: Json, decoded: GetSplsResponse) -> bool {
        &&& Vec::<ServicePoint>::renders(value.member_or_null("locations"@), decoded.locations)
    }

    fn decode(value: &Json) -> (decoded: Option<GetSplsResponse>) {
        if !value.is_object() {
            return None;
        }
        let locations = decode_member::<Vec<ServicePoint>>(value, "locations")?;
        Some(GetSplsResponse { locations })
    }
}

/// A successful response holding one service point location.
#[derive(Debug, Clone)]
pub struct GetSplResponse {
    pub url: String,
    pub location: ServicePointLocation,
    pub name: String,
    pub place: Place,
    pub opening_hours: Vec<OpeningHours>,
    pub closure_periods: Vec<String>,
    pub service_types: Vec<ServiceType>,
    pub average_capacity_day_of_week: Vec<WeekdayCapacity>,
}

impl Decode for GetSplResponse {
    open spec fn accepts(value: Json) -> bool {
        &&& value is Object
        &&& String::accepts(value.member_or_null("url"@))
        &&& ServicePointLocation::accepts(value.member_or_null("location"@))
        &&& String::accepts(value.member_or_null("name"@))
        &&& Place::accepts(value.member_or_null("place"@))
        &&& Vec::<OpeningHours>::accepts(value.member_or_null("openingHours"@))
        &&& Vec::<String>::accepts(value.member_or_null("closurePeriods"@))
        &&& Vec::<ServiceType>::accepts(value.member_or_null("serviceTypes"@))
        &&& Vec::<WeekdayCapacity>::accepts(value.member_or_null("averageCapacityDayOfWeek"@))
    }

    open spec fn renders(value: Json, decoded: GetSplResponse) -> bool {
        &&& String::renders(value.member_or_null("url"@), decoded.url)
        &&& ServicePointLocation::renders(value.member_or_null("location"@), decoded.location)
        &&& String::renders(value.member_or_null("name"@), decoded.name)
        &&& Place::renders(value.member_or_null("place"@), decoded.place)
        &&& Vec::<OpeningHours>::renders(
            value.member_or_null("openingHours"@),
            decoded.opening_hours,
        )
        &&& Vec::<String>::renders(value.member_or_null("closurePeriods"@), decoded.closure_periods)
        &&& Vec::<ServiceType>::renders(
            value.member_or_null("serviceTypes"@),
            decoded.service_types,
        )
        &&& Vec::<WeekdayCapacity>::renders(
            value.member_or_null("averageCapacityDayOfWeek"@),
            decoded.average_capacity_day_of_week,
        )
    }

    fn decode(value: &Json) -> (decoded: Option<GetSplResponse>) {
        if !value.is_object() {
            return None;
        }
        let url = decode_member::<String>(value, "url")?;
        let location = decode_member::<ServicePointLocation>(value, "location")?;
        let name = decode_member::<String>(value, "name")?;
        let place = decode_member::<Place>(value, "place")?;
        let opening_hours = decode_member::<Vec<OpeningHours>>(value, "openingHours")?;
        let closure_periods = decode_member::<Vec<String>>(value, "closurePeriods")?;
        let service_types = decode_member::<Vec<ServiceType>>(value, "serviceTypes")?;
        let average_capacity_day_of_week = decode_member::<Vec<WeekdayCapacity>>(
            value,
            "averageCapacityDayOfWeek",
        )?;
        Some(
            GetSplResponse {
                url,
                location,
                name,
                place,
                opening_hours,
                closure_periods,
                service_types,
                average_capacity_day_of_week,
            },
        )
    }
}

/// The capacity of a service point on a particular weekday.
#[derive(Debug, Clone)]
pub struct WeekdayCapacity {
    pub day_of_week: Weekday,
    pub capacity: Capacity,
}

impl Decode for WeekdayCapacity {
    open spec fn accepts(value: Json) -> bool {
        &&& value is Object
        &&& Weekday::accepts(value.either_member_or_null("dayOfWeek"@, "day_of_week"@))
        &&& Capacity::accepts(value.member_or_null("capacity"@))
    }

    open spec fn renders(value: Json, decoded: WeekdayCapacity) -> bool {
        &&& Weekday::renders(
            value.either_member_or_null("dayOfWeek"@, "day_of_week"@),
            decoded.day_of_week,
        )
        &&& Capacity::renders(value.member_or_null("capacity"@), decoded.capacity)
    }

    fn decode(value: &Json) -> (decoded: Option<WeekdayCapacity>) {
        if !value.is_object() {
            return None;
        }
        let day_of_week = decode_either_member::<Weekday>(value, "dayOfWeek", "day_of_week")?;
        let capacity = decode_member::<Capacity>(value, "capacity")?;
        Some(WeekdayCapacity { day_of_week, capacity })
    }
}

/// Capacity of a service point location.
#[derive(Debug, Clone, Copy, PartialEq, Eq, Structural)]
pub enum Capacity {
    VeryLow,
    Low,
    High,
}

impl Capacity {
    /// The name under which a capacity is written on the wire.
    pub open spec fn wire(self) -> Seq<char> {
        match self {
            Capacity::VeryLow => "VeryLow"@,
            Capacity::Low => "Low"@,
            Capacity::High => "High"@,
        }
    }

    /// Whether `name` is read as a capacity: the name it is written with, or
    /// one of its other spellings.
    pub open spec fn reads(self, name: Seq<char>) -> bool {
        match self {
            Capacity::VeryLow => {
                ||| name == "VeryLow"@
                ||| name == "very-low"@
            },
            Capacity::Low => {
                ||| name == "Low"@
                ||| name == "low"@
            },
            Capacity::High => {
                ||| name == "High"@
                ||| name == "high"@
            },
        }
    }

    /// The name under which a capacity is written on the wire.
    pub fn wire_name(&self) -> (name: &'static str)
        ensures
            name@ == self.wire(),
    {
        match self {
            Capacity::VeryLow => "VeryLow",
            Capacity::Low => "Low",
            Capacity::High => "High",
        }
    }

    /// Reads a name from the wire: `Some` for exactly the names that are
    /// read as a value, `None` for every other text.
    pub fn from_wire(name: &str) -> (decoded: Option<Capacity>)
        ensures
            match decoded {
                Some(value) => value.reads(name@),
                None => forall|value: Capacity| !value.reads(name@),
            },
    {
        if str_eq(name, "VeryLow") {
            Some(Capacity::VeryLow)
        } else if str_eq(name, "very-low") {
            Some(Capacity::VeryLow)
        } else if str_eq(name, "Low") {
            Some(Capacity::Low)
        } else if str_eq(name, "low") {
            Some(Capacity::Low)
        } else if str_eq(name, "High") {
            Some(Capacity::High)
        } else if str_eq(name, "high") {
            Some(Capacity::High)
        } else {
            None
        }
    }

    /// No name is read as two different values.
    pub proof fn lemma_reads_one(a: Capacity, b: Capacity, name: Seq<char>)
        requires
            a.reads(name),
            b.reads(name),
        ensures
            a == b,
    {
        reveal_strlit("VeryLow");
        reveal_strlit("very-low");
        reveal_strlit("Low");
        reveal_strlit("low");
        reveal_strlit("High");
        reveal_strlit("high");
        assert("VeryLow"@.len() == 7 && "VeryLow"@[0] == 'V');
        assert("very-low"@.len() == 8 && "very-low"@[0] == 'v');
        assert("Low"@.len() == 3 && "Low"@[0] == 'L');
        assert("low"@.len() == 3 && "low"@[0] == 'l');
        assert("High"@.len() == 4 && "High"@[0] == 'H');
        assert("high"@.len() == 4 && "high"@[0] == 'h');
    }

    /// The name that a value is written with is read as that value.
    pub proof fn lemma_wire_reads(value: Capacity)
        ensures
            value.reads(value.wire()),
    {
    }
}

impl Decode for Capacity {
    open spec fn accepts(value: Json) -> bool {
        value matches Json::Text(name) && exists|decoded: Capacity| decoded.reads(name@)
    }

    open spec fn renders(value: Json, decoded: Capacity) -> bool {
        value matches Json::Text(name) && decoded.reads(name@)
    }

    fn decode(value: &Json) -> (decoded: Option<Capacity>) {
        match value {
            Json::Text(name) => Capacity::from_wire(name.as_str()),
            _ => None,
        }
    }
}

/// A service point as a search lists it.
#[derive(Debug, Clone)]
pub struct ServicePoint {
    pub url: String,
    pub location: ServicePointLocation,
    pub name: String,
    pub distance: i64,
    pub place: Place,
    pub opening_hours: Vec<OpeningHours>,
    pub closure_periods: Vec<String>,
}

impl Decode for ServicePoint {
    open spec fn accepts(value: Json) -> bool {
        &&& value is Object
        &&& String::accepts(value.member_or_null("url"@))
        &&& ServicePointLocation::accepts(value.member_or_null("location"@))
        &&& String::accepts(value.member_or_null("name"@))
        &&& i64::accepts(value.member_or_null("distance"@))
        &&& Place::accepts(value.member_or_null("place"@))
        &&& Vec::<OpeningHours>::accepts(value.member_or_null("openingHours"@))
        &&& Vec::<String>::accepts(value.member_or_null("closurePeriods"@))
    }

    open spec fn renders(value: Json, decoded: ServicePoint) -> bool {
        &&& String::renders(value.member_or_null("url"@), decoded.url)
        &&& ServicePointLocation::renders(value.member_or_null("location"@), decoded.location)
        &&& String::renders(value.member_or_null("name"@), decoded.name)
        &&& i64::renders(value.member_or_null("distance"@), decoded.distance)
        &&& Place::renders(value.member_or_null("place"@), decoded.place)
        &&& Vec::<OpeningHours>::renders(
            value.member_or_null("openingHours"@),
            decoded.opening_hours,
        )
        &&& Vec::<String>::renders(value.member_or_null("closurePeriods"@), decoded.closure_periods)
    }

    fn decode(value: &Json) -> (decoded: Option<ServicePoint>) {
        if !value.is_object() {
            return None;
        }
        let url = decode_member::<String>(value, "url")?;
        let location = decode_member::<ServicePointLocation>(value, "location")?;
        let name = decode_member::<String>(value, "name")?;
        let distance = decode_member::<i64>(value, "distance")?;
        let place = decode_member::<Place>(value, "place")?;
        let opening_hours = decode_member::<Vec<OpeningHours>>(value, "openingHours")?;
        let closure_periods = decode_member::<Vec<String>>(value, "closurePeriods")?;
        Some(ServicePoint { url, location, name, distance, place, opening_hours, closure_periods })
    }
}

/// How a service point is identified.
#[derive(Debug, Clone)]
pub struct ServicePointLocation {
    pub ids: Vec<ServicePointLocationId>,
    pub keyword: String,
    pub keyword_id: String,
    /// The kind of location, under the key `type`.
    pub kind: String,
    pub lean_locker: Option<bool>,
}

impl Decode for ServicePointLocation {
    open spec fn accepts(value: Json) -> bool {
        &&& value is Object
        &&& Vec::<ServicePointLocationId>::accepts(value.member_or_null("ids"@))
        &&& String::accepts(value.member_or_null("keyword"@))
        &&& String::accepts(value.member_or_null("keywordId"@))
        &&& String::accepts(value.member_or_null("type"@))
        &&& Option::<bool>::accepts(value.member_or_null("leanLocker"@))
    }

    open spec fn renders(value: Json, decoded: ServicePointLocation) -> bool {
        &&& Vec::<ServicePointLocationId>::renders(value.member_or_null("ids"@), decoded.ids)
        &&& String::renders(value.member_or_null("keyword"@), decoded.keyword)
        &&& String::renders(value.member_or_null("keywordId"@), decoded.keyword_id)
        &&& String::renders(value.member_or_null("type"@), decoded.kind)
        &&& Option::<bool>::renders(value.member_or_null("leanLocker"@), decoded.lean_locker)
    }

    fn decode(value: &Json) -> (decoded: Option<ServicePointLocation>) {
        if !value.is_object() {
            return None;
        }
        let ids = decode_member::<Vec<ServicePointLocationId>>(value, "ids")?;
        let keyword = decode_member::<String>(value, "keyword")?;
        let keyword_id = decode_member::<String>(value, "keywordId")?;
        let kind = decode_member::<String>(value, "type")?;
        let lean_locker = decode_member::<Option<bool>>(value, "leanLocker")?;
        Some(ServicePointLocation { ids, keyword, keyword_id, kind, lean_locker })
    }
}

/// A place specified by an address and geo coordinates.
#[derive(Debug, Clone)]
pub struct Place {
    pub address: Address,
    pub geo: Geo,
}

impl Decode for Place {
    open spec fn accepts(value: Json) -> bool {
        &&& value is Object
        &&& Address::accepts(value.member_or_null("address"@))
        &&& Geo::accepts(value.member_or_null("geo"@))
    }

    open spec fn renders(value: Json, decoded: Place) -> bool {
        &&& Address::renders(value.member_or_null("address"@), decoded.address)
        &&& Geo::renders(value.member_or_null("geo"@), decoded.geo)
    }

    fn decode(value: &Json) -> (decoded: Option<Place>) {
        if !value.is_object() {
            return None;
        }
        let address = decode_member::<Address>(value, "address")?;
        let geo = decode_member::<Geo>(value, "geo")?;
        Some(Place { address, geo })
    }
}

/// The address of a service point, with every part given.
#[derive(Debug, Clone)]
pub struct Address {
    pub country_code: String,
    pub postal_code: String,
    pub address_locality: String,
    pub street_address: String,
}

impl Decode for Address {
    open spec fn accepts(value: Json) -> bool {
        &&& value is Object
        &&& String::accepts(value.member_or_null("countryCode"@))
        &&& String::accepts(value.member_or_null("postalCode"@))
        &&& String::accepts(value.member_or_null("addressLocality"@))
        &&& String::accepts(value.member_or_null("streetAddress"@))
    }

    open spec fn renders(value: Json, decoded: Address) -> bool {
        &&& String::renders(value.member_or_null("countryCode"@), decoded.country_code)
        &&& String::renders(value.member_or_null("postalCode"@), decoded.postal_code)
        &&& String::renders(value.member_or_null("addressLocality"@), decoded.address_locality)
        &&& String::renders(value.member_or_null("streetAddress"@), decoded.street_address)
    }

    fn decode(value: &Json) -> (decoded: Option<Address>) {
        if !value.is_object() {
            return None;
        }
        let country_code = decode_member::<String>(value, "countryCode")?;
        let postal_code = decode_member::<String>(value, "postalCode")?;
        let address_locality = decode_member::<String>(value, "addressLocality")?;
        let street_address = decode_member::<String>(value, "streetAddress")?;
        Some(Address { country_code, postal_code, address_locality, street_address })
    }
}

/// The shape of a failure of a request for one service point.
#[derive(Debug, Clone)]
pub struct GetSplResponseNotOk {
    pub status: i64,
    pub title: String,
    pub detail: String,
}

impl Decode for GetSplResponseNotOk {
    open spec fn accepts(value: Json) -> bool {
        &&& value is Object
        &&& i64::accepts(value.member_or_null("status"@))
        &&& String::accepts(value.member_or_null("title"@))
        &&& String::accepts(value.member_or_null("detail"@))
    }

    open spec fn renders(value: Json, decoded: GetSplResponseNotOk) -> bool {
        &&& i64::renders(value.member_or_null("status"@), decoded.status)
        &&& String::renders(value.member_or_null("title"@), decoded.title)
        &&& String::renders(value.member_or_null("detail"@), decoded.detail)
    }

    fn decode(value: &Json) -> (decoded: Option<GetSplResponseNotOk>) {
        if !value.is_object() {
            return None;
        }
        let status = decode_member::<i64>(value, "status")?;
        let title = decode_member::<String>(value, "title")?;
        let detail = decode_member::<String>(value, "detail")?;
        Some(GetSplResponseNotOk { status, title, detail })
    }
}

/// The DHL divisions that run service points.
#[derive(Debug, Clone, Copy, PartialEq, Eq, Structural)]
pub enum Devisions {
    PostAndParcel,
    EcomSolutions,
    Express,
}

impl Devisions {
    /// The name under which a division is written on the wire.
    pub open spec fn wire(self) -> Seq<char> {
        match self {
            Devisions::PostAndParcel => "postAndParcel"@,
            Devisions::EcomSolutions => "ecomSolutions"@,
            Devisions::Express => "express"@,
        }
    }

    /// Whether `name` is read as a division.
    pub open spec fn reads(self, name: Seq<char>) -> bool {
        name == self.wire()
    }

    /// The name under which a division is written on the wire.
    pub fn wire_name(&self) -> (name: &'static str)
        ensures
            name@ == self.wire(),
    {
        match self {
            Devisions::PostAndParcel => "postAndParcel",
            Devisions::EcomSolutions => "ecomSolutions",
            Devisions::Express => "express",
        }
    }

    /// Reads a name from the wire: `Some` for exactly the names that are
    /// read as a value, `None` for every other text.
    pub fn from_wire(name: &str) -> (decoded: Option<Devisions>)
        ensures
            match decoded {
                Some(value) => value.reads(name@),
                None => forall|value: Devisions| !value.reads(name@),
            },
    {
        if str_eq(name, "postAndParcel") {
            Some(Devisions::PostAndParcel)
        } else if str_eq(name, "ecomSolutions") {
            Some(Devisions::EcomSolutions)
        } else if str_eq(name, "express") {
            Some(Devisions::Express)
        } else {
            None
        }
    }

    /// No name is read as two different values.
    pub proof fn lemma_reads_one(a: Devisions, b: Devisions, name: Seq<char>)
        requires
            a.reads(name),
            b.reads(name),
        ensures
            a == b,
    {
        reveal_strlit("postAndParcel");
        reveal_strlit("ecomSolutions");
        reveal_strlit("express");
        assert("postAndParcel"@.len() == 13 && "postAndParcel"@[0] == 'p');
        assert("ecomSolutions"@.len() == 13 && "ecomSolutions"@[0] == 'e');
        assert("express"@.len() == 7 && "express"@[0] == 'e');
    }
}

impl Decode for Devisions {
    open spec fn accepts(value: Json) -> bool {
        value matches Json::Text(name) && exists|decoded: Devisions| decoded.reads(name@)
    }

    open spec fn renders(value: Json, decoded: Devisions) -> bool {
        value matches Json::Text(name) && decoded.reads(name@)
    }

    fn decode(value: &Json) -> (decoded: Option<Devisions>) {
        match value {
            Json::Text(name) => Devisions::from_wire(name.as_str()),
            _ => None,
        }
    }
}

} // verus!
