//! DHL's "Location Finder - Unified" API: the requests that find service
//! points, and the responses that describe them.

use vstd::prelude::*;
use vstd::string::StringExecFns;

use super::{prepared, missing_credentials, Address, CountryCode, HttpGet, ServiceType};
use crate::decode::{
    accepts_list_or_nothing, decode_either_member, decode_list_or_nothing, decode_member,
    renders_list_or_nothing, Decode,
};
use crate::error::DhlError;
use crate::json::Json;
use crate::number::Decimal;
use crate::query::{
    bool_member, bool_value, camel_case, decimal_member, fields_of, lemma_fields_by_index,
    name_member, names_ascend, number_member, number_value, one_if_set, pairs_below, parts_at,
    precedes, present_below, query_text, serializable_to_url_params, text_member, text_of,
    text_value, wire_pairs, Field, FieldValue, Pair,
};
use crate::percent::{is_kept_char, lemma_kept_text, percent_encoded};
use crate::text::str_eq;
use crate::time::{Date, Time};

verus! {

/// The ApiMode decides which base URL will be called. DHL offers a
/// production and a sandbox API for their "Location Finder - Unified" API.
#[derive(Debug, Clone, Copy, PartialEq, Eq, Structural)]
pub enum ApiMode {
    Sandbox,
    Production,
}

/// API struct for calling DHL's "Location Finder - Unified" API.
pub struct LocationFinderApi {
    api_mode: ApiMode,
    api_key: String,
}

impl LocationFinderApi {
    /// The mode that decides which base URL is called.
    pub closed spec fn api_mode(&self) -> ApiMode {
        self.api_mode
    }

    /// The API key; empty where none is configured.
    pub closed spec fn api_key(&self) -> Seq<char> {
        self.api_key@
    }

    /// Creates a new API. An empty `api_key` stands for no key.
    pub fn new(api_mode: ApiMode, api_key: &str) -> (api: LocationFinderApi)
        ensures
            api.api_mode() == api_mode,
            api.api_key() == api_key@,
    {
        LocationFinderApi { api_mode, api_key: String::from_str(api_key) }
    }

    /// The first half of a call: the HTTP GET for `request`, or
    /// `MissingCredentials` where the API has no key.
    pub fn prepare<T: LocationFinderRequest>(&self, request: &T) -> (outcome: Result<
        HttpGet,
        DhlError,
    >)
        ensures
            prepared(self.api_key(), request.url_text(self.api_mode()), outcome),
    {
        if self.api_key.as_str().is_empty() {
            return Err(missing_credentials("Location Finder API"));
        }
        match request.url(&self.api_mode) {
            Ok(url) => Ok(HttpGet { url, api_key: self.api_key.clone() }),
            Err(error) => Err(error),
        }
    }
}

/// A trait all request structs must implement in order to be sent via the
/// [`LocationFinderApi`].
pub trait LocationFinderRequest {
    /// What the API answers the request with.
    type Response;

    /// The URL of the request, if it has one.
    spec fn url_text(&self, api_mode: ApiMode) -> Option<Seq<char>>;

    /// The URL of the request, or the error for which it has none.
    fn url(&self, api_mode: &ApiMode) -> (url: Result<String, DhlError>)
        ensures
            match url {
                Ok(text) => self.url_text(*api_mode) == Some(text@),
                Err(_) => self.url_text(*api_mode) is None,
            },
    ;
}

/// The URL that finds service points by address.
pub open spec fn find_by_address_url(api_mode: ApiMode) -> Seq<char> {
    match api_mode {
        ApiMode::Sandbox => "https://api-sandbox.dhl.com/location-finder/v1/find-by-address"@,
        ApiMode::Production => "https://api.dhl.com/location-finder/v1/find-by-address"@,
    }
}

/// The URL that finds service points by address.
pub fn find_by_address_url_str(api_mode: &ApiMode) -> (base: &'static str)
    ensures
        base@ == find_by_address_url(*api_mode),
{
    match api_mode {
        ApiMode::Sandbox => "https://api-sandbox.dhl.com/location-finder/v1/find-by-address",
        ApiMode::Production => "https://api.dhl.com/location-finder/v1/find-by-address",
    }
}

/// The URL that finds service points by coordinates.
pub open spec fn find_by_geo_url(api_mode: ApiMode) -> Seq<char> {
    match api_mode {
        ApiMode::Sandbox => "https://api-sandbox.dhl.com/location-finder/v1/find-by-geo"@,
        ApiMode::Production => "https://api.dhl.com/location-finder/v1/find-by-geo"@,
    }
}

/// The URL that finds service points by coordinates.
pub fn find_by_geo_url_str(api_mode: &ApiMode) -> (base: &'static str)
    ensures
        base@ == find_by_geo_url(*api_mode),
{
    match api_mode {
        ApiMode::Sandbox => "https://api-sandbox.dhl.com/location-finder/v1/find-by-geo",
        ApiMode::Production => "https://api.dhl.com/location-finder/v1/find-by-geo",
    }
}

/// The URL that finds a service point by keyword id.
pub open spec fn find_by_keyword_id_url(api_mode: ApiMode) -> Seq<char> {
    match api_mode {
        ApiMode::Sandbox => "https://api-sandbox.dhl.com/location-finder/v1/find-by-keyword-id"@,
        ApiMode::Production => "https://api.dhl.com/location-finder/v1/find-by-keyword-id"@,
    }
}

/// The URL that finds a service point by keyword id.
pub fn find_by_keyword_id_url_str(api_mode: &ApiMode) -> (base: &'static str)
    ensures
        base@ == find_by_keyword_id_url(*api_mode),
{
    match api_mode {
        ApiMode::Sandbox => "https://api-sandbox.dhl.com/location-finder/v1/find-by-keyword-id",
        ApiMode::Production => "https://api.dhl.com/location-finder/v1/find-by-keyword-id",
    }
}

/// The URL under which each service point has its own path.
pub open spec fn locations_url(api_mode: ApiMode) -> Seq<char> {
    match api_mode {
        ApiMode::Sandbox => "https://api-sandbox.dhl.com/location-finder/v1/locations"@,
        ApiMode::Production => "https://api.dhl.com/location-finder/v1/locations"@,
    }
}

/// The URL under which each service point has its own path.
pub fn locations_url_str(api_mode: &ApiMode) -> (base: &'static str)
    ensures
        base@ == locations_url(*api_mode),
{
    match api_mode {
        ApiMode::Sandbox => "https://api-sandbox.dhl.com/location-finder/v1/locations",
        ApiMode::Production => "https://api.dhl.com/location-finder/v1/locations",
    }
}

/// Parameters of the GET request returning service point locations by address.
#[derive(Debug, Clone)]
pub struct GetLocationsByAddress {
    country_code: CountryCode,
    address_locality: Option<String>,
    postal_code: Option<String>,
    street_address: Option<String>,
    provider_type: Option<ProviderType>,
    location_type: Option<LocationType>,
    service_type: Option<ServiceType>,
    radius: Option<u32>,
    limit: Option<u32>,
    hide_closed_locations: Option<bool>,
}

/// What a `GetLocationsByAddress` holds.
pub struct GetLocationsByAddressView {
    pub country_code: CountryCode,
    pub address_locality: Option<Seq<char>>,
    pub postal_code: Option<Seq<char>>,
    pub street_address: Option<Seq<char>>,
    pub provider_type: Option<ProviderType>,
    pub location_type: Option<LocationType>,
    pub service_type: Option<ServiceType>,
    pub radius: Option<u32>,
    pub limit: Option<u32>,
    pub hide_closed_locations: Option<bool>,
}

impl View for GetLocationsByAddress {
    type V = GetLocationsByAddressView;

    closed spec fn view(&self) -> GetLocationsByAddressView {
        GetLocationsByAddressView {
            country_code: self.country_code,
            address_locality: text_of(self.address_locality),
            postal_code: text_of(self.postal_code),
            street_address: text_of(self.street_address),
            provider_type: self.provider_type,
            location_type: self.location_type,
            service_type: self.service_type,
            radius: self.radius,
            limit: self.limit,
            hide_closed_locations: self.hide_closed_locations,
        }
    }
}

impl GetLocationsByAddress {
    /// A request with its required parameters. No optional parameter is
    /// set.
    pub fn new(country_code: CountryCode) -> (request: GetLocationsByAddress)
        ensures
            request@ == (GetLocationsByAddressView {
                country_code: country_code,
                address_locality: None,
                postal_code: None,
                street_address: None,
                provider_type: None,
                location_type: None,
                service_type: None,
                radius: None,
                limit: None,
                hide_closed_locations: None,
            }),
    {
        GetLocationsByAddress {
            country_code,
            address_locality: None,
            postal_code: None,
            street_address: None,
            provider_type: None,
            location_type: None,
            service_type: None,
            radius: None,
            limit: None,
            hide_closed_locations: None,
        }
    }

    /// Sets or clears `address_locality`.
    pub fn address_locality(self, value: Option<&str>) -> (request: GetLocationsByAddress)
        ensures
            request@ == (GetLocationsByAddressView {
                address_locality: match value {
                    Some(text) => Some(text@),
                    None => None,
                },
                ..self@
            }),
    {
        let mut request = self;
        request.address_locality = match value {
            Some(text) => Some(String::from_str(text)),
            None => None,
        };
        request
    }

    /// Sets or clears `postal_code`.
    pub fn postal_code(self, value: Option<&str>) -> (request: GetLocationsByAddress)
        ensures
            request@ == (GetLocationsByAddressView {
                postal_code: match value {
                    Some(text) => Some(text@),
                    None => None,
                },
                ..self@
            }),
    {
        let mut request = self;
        request.postal_code = match value {
            Some(text) => Some(String::from_str(text)),
            None => None,
        };
        request
    }

    /// Sets or clears `street_address`.
    pub fn street_address(self, value: Option<&str>) -> (request: GetLocationsByAddress)
        ensures
            request@ == (GetLocationsByAddressView {
                street_address: match value {
                    Some(text) => Some(text@),
                    None => None,
                },
                ..self@
            }),
    {
        let mut request = self;
        request.street_address = match value {
            Some(text) => Some(String::from_str(text)),
            None => None,
        };
        request
    }

    /// Sets or clears `provider_type`.
    pub fn provider_type(self, value: Option<ProviderType>) -> (request: GetLocationsByAddress)
        ensures
            request@ == (GetLocationsByAddressView { provider_type: value, ..self@ }),
    {
        let mut request = self;
        request.provider_type = value;
        request
    }

    /// Sets or clears `location_type`.
    pub fn location_type(self, value: Option<LocationType>) -> (request: GetLocationsByAddress)
        ensures
            request@ == (GetLocationsByAddressView { location_type: value, ..self@ }),
    {
        let mut request = self;
        request.location_type = value;
        request
    }

    /// Sets or clears `service_type`.
    pub fn service_type(self, value: Option<ServiceType>) -> (request: GetLocationsByAddress)
        ensures
            request@ == (GetLocationsByAddressView { service_type: value, ..self@ }),
    {
        let mut request = self;
        request.service_type = value;
        request
    }

    /// Sets or clears `radius`.
    pub fn radius(self, value: Option<u32>) -> (request: GetLocationsByAddress)
        ensures
            request@ == (GetLocationsByAddressView { radius: value, ..self@ }),
    {
        let mut request = self;
        request.radius = value;
        request
    }

    /// Sets or clears `limit`.
    pub fn limit(self, value: Option<u32>) -> (request: GetLocationsByAddress)
        ensures
            request@ == (GetLocationsByAddressView { limit: value, ..self@ }),
    {
        let mut request = self;
        request.limit = value;
        request
    }

    /// Sets or clears `hide_closed_locations`.
    pub fn hide_closed_locations(self, value: Option<bool>) -> (request: GetLocationsByAddress)
        ensures
            request@ == (GetLocationsByAddressView { hide_closed_locations: value, ..self@ }),
    {
        let mut request = self;
        request.hide_closed_locations = value;
        request
    }

    /// The fields of the request, in the order in which they are
    /// serialized: by name.
    pub open spec fn fields(&self) -> Seq<Field> {
        seq![
            ("address_locality"@, text_value(self@.address_locality)),
            ("country_code"@, FieldValue::Text(self@.country_code.wire())),
            ("hide_closed_locations"@, bool_value(self@.hide_closed_locations)),
            ("limit"@, number_value(self@.limit)),
            ("location_type"@, text_value(
                match self@.location_type {
                    Some(name) => Some(name.wire()),
                    None => None,
                },
            )),
            ("postal_code"@, text_value(self@.postal_code)),
            ("provider_type"@, text_value(
                match self@.provider_type {
                    Some(name) => Some(name.wire()),
                    None => None,
                },
            )),
            ("radius"@, number_value(self@.radius)),
            ("service_type"@, text_value(
                match self@.service_type {
                    Some(name) => Some(name.wire()),
                    None => None,
                },
            )),
            ("street_address"@, text_value(self@.street_address)),
        ]
    }

    /// The number of optional parameters that are set.
    pub open spec fn optional_count(&self) -> nat {
        one_if_set(self@.address_locality)
            + one_if_set(self@.postal_code)
            + one_if_set(self@.street_address)
            + one_if_set(self@.provider_type)
            + one_if_set(self@.location_type)
            + one_if_set(self@.service_type)
            + one_if_set(self@.radius)
            + one_if_set(self@.limit)
            + one_if_set(self@.hide_closed_locations)
    }

    /// The request as an object: one member for each field, in the order
    /// of `fields`, holding a string, a number or a boolean where the
    /// field is set and a null where it is not.
    pub fn to_value(&self) -> (value: Json)
        ensures
            value matches Json::Object(members) && fields_of(members@) == self.fields(),
    {
        let mut members: Vec<(String, Json)> = Vec::new();
        members.push(text_member("address_locality", &self.address_locality));
        let country_code = self.country_code.wire_name();
        members.push(name_member("country_code", Some(country_code.as_str())));
        members.push(bool_member("hide_closed_locations", self.hide_closed_locations));
        members.push(number_member("limit", self.limit));
        let location_type: Option<&str> = match self.location_type {
            Some(name) => Some(name.wire_name()),
            None => None,
        };
        members.push(name_member("location_type", location_type));
        members.push(text_member("postal_code", &self.postal_code));
        let provider_type: Option<&str> = match self.provider_type {
            Some(name) => Some(name.wire_name()),
            None => None,
        };
        members.push(name_member("provider_type", provider_type));
        members.push(number_member("radius", self.radius));
        let service_type: Option<&str> = match self.service_type {
            Some(name) => Some(name.wire_name()),
            None => None,
        };
        members.push(name_member("service_type", service_type));
        members.push(text_member("street_address", &self.street_address));
        assert(fields_of(members@) =~= self.fields());
        Json::Object(members)
    }

    /// The query string of the request holds one pair for each required
    /// parameter and one for each optional parameter that is set.
    #[verifier::rlimit(30)]
    pub proof fn lemma_pair_count(&self)
        ensures
            wire_pairs(self.fields()).len() == 1 + self.optional_count(),
    {
        lemma_fields_by_index(self.fields());
        crate::query::lemma_pair_count(self.fields());
        reveal_with_fuel(present_below, 11);
    }

    /// The pairs of the required parameters, which every query string of
    /// the request holds.
    pub open spec fn required_pairs(&self) -> Seq<Pair> {
        seq![
            (camel_case("country_code"@), self@.country_code.wire()),
        ]
    }

    /// With no optional parameter set, the query string of the request
    /// holds the pairs of the required parameters and no other.
    #[verifier::rlimit(30)]
    pub proof fn lemma_required_pairs(&self)
        requires
            self.optional_count() == 0,
        ensures
            wire_pairs(self.fields()) == self.required_pairs(),
    {
        lemma_fields_by_index(self.fields());
        reveal_with_fuel(pairs_below, 11);
        assert(pairs_below(self.fields(), 10) =~= self.required_pairs());
    }

    /// The fields stand in the order of their names, each name once.
    pub proof fn lemma_names_ascend(&self)
        ensures
            names_ascend(self.fields()),
    {
        reveal_strlit("address_locality");
        reveal_strlit("country_code");
        reveal_strlit("hide_closed_locations");
        reveal_strlit("limit");
        reveal_strlit("location_type");
        reveal_strlit("postal_code");
        reveal_strlit("provider_type");
        reveal_strlit("radius");
        reveal_strlit("service_type");
        reveal_strlit("street_address");
        let fields = self.fields();
        assert forall|i: int| 0 <= i < fields.len() - 1 implies precedes(
            #[trigger] fields[i].0,
            fields[i + 1].0,
        ) by {
            if i == 0 {
                assert("address_locality"@[0] == 'a');
                assert("country_code"@[0] == 'c');
                assert(parts_at("address_locality"@, "country_code"@, 0));
            } else if i == 1 {
                assert("country_code"@[0] == 'c');
                assert("hide_closed_locations"@[0] == 'h');
                assert(parts_at("country_code"@, "hide_closed_locations"@, 0));
            } else if i == 2 {
                assert("hide_closed_locations"@[0] == 'h');
                assert("limit"@[0] == 'l');
                assert(parts_at("hide_closed_locations"@, "limit"@, 0));
            } else if i == 3 {
                assert("limit"@[0] == 'l');
                assert("location_type"@[0] == 'l');
                assert("limit"@[1] == 'i');
                assert("location_type"@[1] == 'o');
                assert(parts_at("limit"@, "location_type"@, 1));
            } else if i == 4 {
                assert("location_type"@[0] == 'l');
                assert("postal_code"@[0] == 'p');
                assert(parts_at("location_type"@, "postal_code"@, 0));
            } else if i == 5 {
                assert("postal_code"@[0] == 'p');
                assert("provider_type"@[0] == 'p');
                assert("postal_code"@[1] == 'o');
                assert("provider_type"@[1] == 'r');
                assert(parts_at("postal_code"@, "provider_type"@, 1));
            } else if i == 6 {
                assert("provider_type"@[0] == 'p');
                assert("radius"@[0] == 'r');
                assert(parts_at("provider_type"@, "radius"@, 0));
            } else if i == 7 {
                assert("radius"@[0] == 'r');
                assert("service_type"@[0] == 's');
                assert(parts_at("radius"@, "service_type"@, 0));
            } else {
                assert("service_type"@[0] == 's');
                assert("street_address"@[0] == 's');
                assert("service_type"@[1] == 'e');
                assert("street_address"@[1] == 't');
                assert(parts_at("service_type"@, "street_address"@, 1));
            }
        }
    }
}

impl LocationFinderRequest for GetLocationsByAddress {
    type Response = GetLocationsResponse;

    open spec fn url_text(&self, api_mode: ApiMode) -> Option<Seq<char>> {
        Some(find_by_address_url(api_mode) + query_text(wire_pairs(self.fields())))
    }

    fn url(&self, api_mode: &ApiMode) -> (url: Result<String, DhlError>) {
        let mut url = String::from_str(find_by_address_url_str(api_mode));
        let query = serializable_to_url_params(&self.to_value());
        url.append(query.as_str());
        Ok(url)
    }
}

/// Parameters of the GET request returning service point locations by coordinates.
#[derive(Debug, Clone)]
pub struct GetLocationsByGeo {
    latitude: Decimal,
    longitude: Decimal,
    provider_type: Option<ProviderType>,
    location_type: Option<LocationType>,
    service_type: Option<ServiceType>,
    radius: Option<u32>,
    limit: Option<u32>,
    hide_closed_locations: Option<bool>,
}

/// What a `GetLocationsByGeo` holds.
pub struct GetLocationsByGeoView {
    pub latitude: Seq<char>,
    pub longitude: Seq<char>,
    pub provider_type: Option<ProviderType>,
    pub location_type: Option<LocationType>,
    pub service_type: Option<ServiceType>,
    pub radius: Option<u32>,
    pub limit: Option<u32>,
    pub hide_closed_locations: Option<bool>,
}

impl View for GetLocationsByGeo {
    type V = GetLocationsByGeoView;

    closed spec fn view(&self) -> GetLocationsByGeoView {
        GetLocationsByGeoView {
            latitude: self.latitude@,
            longitude: self.longitude@,
            provider_type: self.provider_type,
            location_type: self.location_type,
            service_type: self.service_type,
            radius: self.radius,
            limit: self.limit,
            hide_closed_locations: self.hide_closed_locations,
        }
    }
}

impl GetLocationsByGeo {
    /// A request with its required parameters. No optional parameter is
    /// set.
    pub fn new(latitude: Decimal, longitude: Decimal) -> (request: GetLocationsByGeo)
        ensures
            request@ == (GetLocationsByGeoView {
                latitude: latitude@,
                longitude: longitude@,
                provider_type: None,
                location_type: None,
                service_type: None,
                radius: None,
                limit: None,
                hide_closed_locations: None,
            }),
    {
        GetLocationsByGeo {
            latitude,
            longitude,
            provider_type: None,
            location_type: None,
            service_type: None,
            radius: None,
            limit: None,
            hide_closed_locations: None,
        }
    }

    /// Sets or clears `provider_type`.
    pub fn provider_type(self, value: Option<ProviderType>) -> (request: GetLocationsByGeo)
        ensures
            request@ == (GetLocationsByGeoView { provider_type: value, ..self@ }),
    {
        let mut request = self;
        request.provider_type = value;
        request
    }

    /// Sets or clears `location_type`.
    pub fn location_type(self, value: Option<LocationType>) -> (request: GetLocationsByGeo)
        ensures
            request@ == (GetLocationsByGeoView { location_type: value, ..self@ }),
    {
        let mut request = self;
        request.location_type = value;
        request
    }

    /// Sets or clears `service_type`.
    pub fn service_type(self, value: Option<ServiceType>) -> (request: GetLocationsByGeo)
        ensures
            request@ == (GetLocationsByGeoView { service_type: value, ..self@ }),
    {
        let mut request = self;
        request.service_type = value;
        request
    }

    /// Sets or clears `radius`.
    pub fn radius(self, value: Option<u32>) -> (request: GetLocationsByGeo)
        ensures
            request@ == (GetLocationsByGeoView { radius: value, ..self@ }),
    {
        let mut request = self;
        request.radius = value;
        request
    }

    /// Sets or clears `limit`.
    pub fn limit(self, value: Option<u32>) -> (request: GetLocationsByGeo)
        ensures
            request@ == (GetLocationsByGeoView { limit: value, ..self@ }),
    {
        let mut request = self;
        request.limit = value;
        request
    }

    /// Sets or clears `hide_closed_locations`.
    pub fn hide_closed_locations(self, value: Option<bool>) -> (request: GetLocationsByGeo)
        ensures
            request@ == (GetLocationsByGeoView { hide_closed_locations: value, ..self@ }),
    {
        let mut request = self;
        request.hide_closed_locations = value;
        request
    }

    /// The fields of the request, in the order in which they are
    /// serialized: by name.
    pub open spec fn fields(&self) -> Seq<Field> {
        seq![
            ("hide_closed_locations"@, bool_value(self@.hide_closed_locations)),
            ("latitude"@, FieldValue::Number(self@.latitude)),
            ("limit"@, number_value(self@.limit)),
            ("location_type"@, text_value(
                match self@.location_type {
                    Some(name) => Some(name.wire()),
                    None => None,
                },
            )),
            ("longitude"@, FieldValue::Number(self@.longitude)),
            ("provider_type"@, text_value(
                match self@.provider_type {
                    Some(name) => Some(name.wire()),
                    None => None,
                },
            )),
            ("radius"@, number_value(self@.radius)),
            ("service_type"@, text_value(
                match self@.service_type {
                    Some(name) => Some(name.wire()),
                    None => None,
                },
            )),
        ]
    }

    /// The number of optional parameters that are set.
    pub open spec fn optional_count(&self) -> nat {
        one_if_set(self@.provider_type)
            + one_if_set(self@.location_type)
            + one_if_set(self@.service_type)
            + one_if_set(self@.radius)
            + one_if_set(self@.limit)
            + one_if_set(self@.hide_closed_locations)
    }

    /// The request as an object: one member for each field, in the order
    /// of `fields`, holding a string, a number or a boolean where the
    /// field is set and a null where it is not.
    pub fn to_value(&self) -> (value: Json)
        ensures
            value matches Json::Object(members) && fields_of(members@) == self.fields(),
    {
        let mut members: Vec<(String, Json)> = Vec::new();
        members.push(bool_member("hide_closed_locations", self.hide_closed_locations));
        members.push(decimal_member("latitude", &self.latitude));
        members.push(number_member("limit", self.limit));
        let location_type: Option<&str> = match self.location_type {
            Some(name) => Some(name.wire_name()),
            None => None,
        };
        members.push(name_member("location_type", location_type));
        members.push(decimal_member("longitude", &self.longitude));
        let provider_type: Option<&str> = match self.provider_type {
            Some(name) => Some(name.wire_name()),
            None => None,
        };
        members.push(name_member("provider_type", provider_type));
        members.push(number_member("radius", self.radius));
        let service_type: Option<&str> = match self.service_type {
            Some(name) => Some(name.wire_name()),
            None => None,
        };
        members.push(name_member("service_type", service_type));
        assert(fields_of(members@) =~= self.fields());
        Json::Object(members)
    }

    /// The query string of the request holds one pair for each required
    /// parameter and one for each optional parameter that is set.
    pub proof fn lemma_pair_count(&self)
        ensures
            wire_pairs(self.fields()).len() == 2 + self.optional_count(),
    {
        lemma_fields_by_index(self.fields());
        crate::query::lemma_pair_count(self.fields());
        reveal_with_fuel(present_below, 9);
    }

    /// The pairs of the required parameters, which every query string of
    /// the request holds.
    pub open spec fn required_pairs(&self) -> Seq<Pair> {
        seq![
            (camel_case("latitude"@), self@.latitude),
            (camel_case("longitude"@), self@.longitude),
        ]
    }

    /// With no optional parameter set, the query string of the request
    /// holds the pairs of the required parameters and no other.
    pub proof fn lemma_required_pairs(&self)
        requires
            self.optional_count() == 0,
        ensures
            wire_pairs(self.fields()) == self.required_pairs(),
    {
        lemma_fields_by_index(self.fields());
        reveal_with_fuel(pairs_below, 9);
        assert(pairs_below(self.fields(), 8) =~= self.required_pairs());
    }

    /// The fields stand in the order of their names, each name once.
    pub proof fn lemma_names_ascend(&self)
        ensures
            names_ascend(self.fields()),
    {
        reveal_strlit("hide_closed_locations");
        reveal_strlit("latitude");
        reveal_strlit("limit");
        reveal_strlit("location_type");
        reveal_strlit("longitude");
        reveal_strlit("provider_type");
        reveal_strlit("radius");
        reveal_strlit("service_type");
        let fields = self.fields();
        assert forall|i: int| 0 <= i < fields.len() - 1 implies precedes(
            #[trigger] fields[i].0,
            fields[i + 1].0,
        ) by {
            if i == 0 {
                assert("hide_closed_locations"@[0] == 'h');
                assert("latitude"@[0] == 'l');
                assert(parts_at("hide_closed_locations"@, "latitude"@, 0));
            } else if i == 1 {
                assert("latitude"@[0] == 'l');
                assert("limit"@[0] == 'l');
                assert("latitude"@[1] == 'a');
                assert("limit"@[1] == 'i');
                assert(parts_at("latitude"@, "limit"@, 1));
            } else if i == 2 {
                assert("limit"@[0] == 'l');
                assert("location_type"@[0] == 'l');
                assert("limit"@[1] == 'i');
                assert("location_type"@[1] == 'o');
                assert(parts_at("limit"@, "location_type"@, 1));
            } else if i == 3 {
                assert("location_type"@[0] == 'l');
                assert("longitude"@[0] == 'l');
                assert("location_type"@[1] == 'o');
                assert("longitude"@[1] == 'o');
                assert("location_type"@[2] == 'c');
                assert("longitude"@[2] == 'n');
                assert(parts_at("location_type"@, "longitude"@, 2));
            } else if i == 4 {
                assert("longitude"@[0] == 'l');
                assert("provider_type"@[0] == 'p');
                assert(parts_at("longitude"@, "provider_type"@, 0));
            } else if i == 5 {
                assert("provider_type"@[0] == 'p');
                assert("radius"@[0] == 'r');
                assert(parts_at("provider_type"@, "radius"@, 0));
            } else {
                assert("radius"@[0] == 'r');
                assert("service_type"@[0] == 's');
                assert(parts_at("radius"@, "service_type"@, 0));
            }
        }
    }
}

impl LocationFinderRequest for GetLocationsByGeo {
    type Response = GetLocationsResponse;

    open spec fn url_text(&self, api_mode: ApiMode) -> Option<Seq<char>> {
        Some(find_by_geo_url(api_mode) + query_text(wire_pairs(self.fields())))
    }

    fn url(&self, api_mode: &ApiMode) -> (url: Result<String, DhlError>) {
        let mut url = String::from_str(find_by_geo_url_str(api_mode));
        let query = serializable_to_url_params(&self.to_value());
        url.append(query.as_str());
        Ok(url)
    }
}

/// Parameters of the GET request returning a service point location by keyword id.
#[derive(Debug, Clone)]
pub struct GetLocationByKeywordId {
    keyword_id: String,
    country_code: CountryCode,
    postal_code: String,
}

/// What a `GetLocationByKeywordId` holds.
pub struct GetLocationByKeywordIdView {
    pub keyword_id: Seq<char>,
    pub country_code: CountryCode,
    pub postal_code: Seq<char>,
}

impl View for GetLocationByKeywordId {
    type V = GetLocationByKeywordIdView;

    closed spec fn view(&self) -> GetLocationByKeywordIdView {
        GetLocationByKeywordIdView {
            keyword_id: self.keyword_id@,
            country_code: self.country_code,
            postal_code: self.postal_code@,
        }
    }
}

impl GetLocationByKeywordId {
    /// A request with its parameters.
    pub fn new(
        keyword_id: &str,
        country_code: CountryCode,
        postal_code: &str,
    ) -> (request: GetLocationByKeywordId)
        ensures
            request@ == (GetLocationByKeywordIdView {
                keyword_id: keyword_id@,
                country_code: country_code,
                postal_code: postal_code@,
            }),
    {
        GetLocationByKeywordId {
            keyword_id: String::from_str(keyword_id),
            country_code,
            postal_code: String::from_str(postal_code),
        }
    }

    /// The fields of the request, in the order in which they are
    /// serialized: by name.
    pub open spec fn fields(&self) -> Seq<Field> {
        seq![
            ("country_code"@, FieldValue::Text(self@.country_code.wire())),
            ("keyword_id"@, FieldValue::Text(self@.keyword_id)),
            ("postal_code"@, FieldValue::Text(self@.postal_code)),
        ]
    }

    /// The number of optional parameters that are set.
    pub open spec fn optional_count(&self) -> nat {
        0
    }

    /// The request as an object: one member for each field, in the order
    /// of `fields`, holding a string, a number or a boolean where the
    /// field is set and a null where it is not.
    pub fn to_value(&self) -> (value: Json)
        ensures
            value matches Json::Object(members) && fields_of(members@) == self.fields(),
    {
        let mut members: Vec<(String, Json)> = Vec::new();
        let country_code = self.country_code.wire_name();
        members.push(name_member("country_code", Some(country_code.as_str())));
        members.push(name_member("keyword_id", Some(self.keyword_id.as_str())));
        members.push(name_member("postal_code", Some(self.postal_code.as_str())));
        assert(fields_of(members@) =~= self.fields());
        Json::Object(members)
    }

    /// The query string of the request holds one pair for each required
    /// parameter and one for each optional parameter that is set.
    pub proof fn lemma_pair_count(&self)
        ensures
            wire_pairs(self.fields()).len() == 3 + self.optional_count(),
    {
        lemma_fields_by_index(self.fields());
        crate::query::lemma_pair_count(self.fields());
        reveal_with_fuel(present_below, 4);
    }

    /// The pairs of the required parameters, which every query string of
    /// the request holds.
    pub open spec fn required_pairs(&self) -> Seq<Pair> {
        seq![
            (camel_case("country_code"@), self@.country_code.wire()),
            (camel_case("keyword_id"@), self@.keyword_id),
            (camel_case("postal_code"@), self@.postal_code),
        ]
    }

    /// The query string of the request holds the pairs of its parameters.
    pub proof fn lemma_required_pairs(&self)
        ensures
            wire_pairs(self.fields()) == self.required_pairs(),
    {
        lemma_fields_by_index(self.fields());
        reveal_with_fuel(pairs_below, 4);
        assert(pairs_below(self.fields(), 3) =~= self.required_pairs());
    }

    /// The fields stand in the order of their names, each name once.
    pub proof fn lemma_names_ascend(&self)
        ensures
            names_ascend(self.fields()),
    {
        reveal_strlit("country_code");
        reveal_strlit("keyword_id");
        reveal_strlit("postal_code");
        let fields = self.fields();
        assert forall|i: int| 0 <= i < fields.len() - 1 implies precedes(
            #[trigger] fields[i].0,
            fields[i + 1].0,
        ) by {
            if i == 0 {
                assert("country_code"@[0] == 'c');
                assert("keyword_id"@[0] == 'k');
                assert(parts_at("country_code"@, "keyword_id"@, 0));
            } else {
                assert("keyword_id"@[0] == 'k');
                assert("postal_code"@[0] == 'p');
                assert(parts_at("keyword_id"@, "postal_code"@, 0));
            }
        }
    }
}

impl LocationFinderRequest for GetLocationByKeywordId {
    type Response = GetLocationResponse;

    open spec fn url_text(&self, api_mode: ApiMode) -> Option<Seq<char>> {
        Some(find_by_keyword_id_url(api_mode) + query_text(wire_pairs(self.fields())))
    }

    fn url(&self, api_mode: &ApiMode) -> (url: Result<String, DhlError>) {
        let mut url = String::from_str(find_by_keyword_id_url_str(api_mode));
        let query = serializable_to_url_params(&self.to_value());
        url.append(query.as_str());
        Ok(url)
    }
}

/// Parameters of the GET request returning a service point location by id.
#[derive(Debug, Clone)]
pub struct GetLocationById {
    id: String,
}

/// What a `GetLocationById` holds.
pub struct GetLocationByIdView {
    pub id: Seq<char>,
}

impl View for GetLocationById {
    type V = GetLocationByIdView;

    closed spec fn view(&self) -> GetLocationByIdView {
        GetLocationByIdView {
            id: self.id@,
        }
    }
}

impl GetLocationById {
    /// A request with its parameters.
    pub fn new(id: &str) -> (request: GetLocationById)
        ensures
            request@ == (GetLocationByIdView {
                id: id@,
            }),
    {
        GetLocationById {
            id: String::from_str(id),
        }
    }
}

impl LocationFinderRequest for GetLocationById {
    type Response = GetLocationResponse;

    open spec fn url_text(&self, api_mode: ApiMode) -> Option<Seq<char>> {
        Some(locations_url(api_mode) + seq!['/'] + self@.id)
    }

    fn url(&self, api_mode: &ApiMode) -> (url: Result<String, DhlError>) {
        let mut url = String::from_str(locations_url_str(api_mode));
        proof {
            reveal_strlit("/");
        }
        url.append("/");
        url.append(self.id.as_str());
        assert(url@ =~= locations_url(*api_mode) + seq!['/'] + self@.id);
        Ok(url)
    }
}

/// A successful response holding a list of service point locations.
#[derive(Debug, Clone)]
pub struct GetLocationsResponse {
    pub locations: Vec<ServicePoint>,
}

impl Decode for GetLocationsResponse {
    open spec fn accepts(value: Json) -> bool {
        &&& value is Object
        &&& Vec::<ServicePoint>::accepts(value.member_or_null("locations"@))
    }

    open spec fn renders(value: Json, decoded: GetLocationsResponse) -> bool {
        &&& Vec::<ServicePoint>::renders(value.member_or_null("locations"@), decoded.locations)
    }

    fn decode(value: &Json) -> (decoded: Option<GetLocationsResponse>) {
        if !value.is_object() {
            return None;
        }
        let locations = decode_member::<Vec<ServicePoint>>(value, "locations")?;
        Some(GetLocationsResponse { locations })
    }
}

/// A successful response holding one service point location.
///
/// The closure periods and the capacities by weekday may be left out of a
/// response, and are then read as empty lists.
#[derive(Debug, Clone)]
pub struct GetLocationResponse {
    pub url: String,
    pub location: ServicePointLocation,
    pub name: String,
    pub distance: Option<u32>,
    pub place: Place,
    pub opening_hours: Vec<OpeningHours>,
    pub closure_periods: Vec<ClosurePeriod>,
    pub service_types: Vec<ServiceType>,
    pub average_capacity_day_of_week: Vec<WeekdayCapacity>,
    pub available_capacity: Option<Capacity>,
}

impl Decode for GetLocationResponse {
    open spec fn accepts(value: Json) -> bool {
        &&& value is Object
        &&& String::accepts(value.member_or_null("url"@))
        &&& ServicePointLocation::accepts(value.member_or_null("location"@))
        &&& String::accepts(value.member_or_null("name"@))
        &&& Option::<u32>::accepts(value.member_or_null("distance"@))
        &&& Place::accepts(value.member_or_null("place"@))
        &&& Vec::<OpeningHours>::accepts(value.member_or_null("openingHours"@))
        &&& accepts_list_or_nothing::<ClosurePeriod>(value.member_or_null("closurePeriods"@))
        &&& Vec::<ServiceType>::accepts(value.member_or_null("serviceTypes"@))
        &&& accepts_list_or_nothing::<WeekdayCapacity>(
            value.member_or_null("averageCapacityDayOfWeek"@),
        )
        &&& Option::<Capacity>::accepts(value.member_or_null("availableCapacity"@))
    }

    open spec fn renders(value: Json, decoded: GetLocationResponse) -> bool {
        &&& String::renders(value.member_or_null("url"@), decoded.url)
        &&& ServicePointLocation::renders(value.member_or_null("location"@), decoded.location)
        &&& String::renders(value.member_or_null("name"@), decoded.name)
        &&& Option::<u32>::renders(value.member_or_null("distance"@), decoded.distance)
        &&& Place::renders(value.member_or_null("place"@), decoded.place)
        &&& Vec::<OpeningHours>::renders(
            value.member_or_null("openingHours"@),
            decoded.opening_hours,
        )
        &&& renders_list_or_nothing::<ClosurePeriod>(
            value.member_or_null("closurePeriods"@),
            decoded.closure_periods,
        )
        &&& Vec::<ServiceType>::renders(
            value.member_or_null("serviceTypes"@),
            decoded.service_types,
        )
        &&& renders_list_or_nothing::<WeekdayCapacity>(
            value.member_or_null("averageCapacityDayOfWeek"@),
            decoded.average_capacity_day_of_week,
        )
        &&& Option::<Capacity>::renders(
            value.member_or_null("availableCapacity"@),
            decoded.available_capacity,
        )
    }

    fn decode(value: &Json) -> (decoded: Option<GetLocationResponse>) {
        if !value.is_object() {
            return None;
        }
        let url = decode_member::<String>(value, "url")?;
        let location = decode_member::<ServicePointLocation>(value, "location")?;
        let name = decode_member::<String>(value, "name")?;
        let distance = decode_member::<Option<u32>>(value, "distance")?;
        let place = decode_member::<Place>(value, "place")?;
        let opening_hours = decode_member::<Vec<OpeningHours>>(value, "openingHours")?;
        let closure_periods = decode_list_or_nothing::<ClosurePeriod>(value, "closurePeriods")?;
        let service_types = decode_member::<Vec<ServiceType>>(value, "serviceTypes")?;
        let average_capacity_day_of_week = decode_list_or_nothing::<WeekdayCapacity>(
            value,
            "averageCapacityDayOfWeek",
        )?;
        let available_capacity = decode_member::<Option<Capacity>>(value, "availableCapacity")?;
        Some(
            GetLocationResponse {
                url,
                location,
                name,
                distance,
                place,
                opening_hours,
                closure_periods,
                service_types,
                average_capacity_day_of_week,
                available_capacity,
            },
        )
    }
}

/// The capacity of a service point on a particular weekday.
#[derive(Debug, Clone)]
pub struct WeekdayCapacity {
    pub day_of_week: Weekday,
    pub capacity: Capacity,
}

impl Decode for WeekdayCapacity {
    open spec fn accepts(value: Json) -> bool {
        &&& value is Object
        &&& Weekday::accepts(value.either_member_or_null("dayOfWeek"@, "day_of_week"@))
        &&& Capacity::accepts(value.member_or_null("capacity"@))
    }

    open spec fn renders(value: Json, decoded: WeekdayCapacity) -> bool {
        &&& Weekday::renders(
            value.either_member_or_null("dayOfWeek"@, "day_of_week"@),
            decoded.day_of_week,
        )
        &&& Capacity::renders(value.member_or_null("capacity"@), decoded.capacity)
    }

    fn decode(value: &Json) -> (decoded: Option<WeekdayCapacity>) {
        if !value.is_object() {
            return None;
        }
        let day_of_week = decode_either_member::<Weekday>(value, "dayOfWeek", "day_of_week")?;
        let capacity = decode_member::<Capacity>(value, "capacity")?;
        Some(WeekdayCapacity { day_of_week, capacity })
    }
}

/// Capacity of a service point location.
#[derive(Debug, Clone, Copy, PartialEq, Eq, Structural)]
pub enum Capacity {
    VeryLow,
    Low,
    High,
    Unknown,
}

impl Capacity {
    /// The name under which a capacity is written on the wire.
    pub open spec fn wire(self) -> Seq<char> {
        match self {
            Capacity::VeryLow => "VeryLow"@,
            Capacity::Low => "Low"@,
            Capacity::High => "High"@,
            Capacity::Unknown => "Unknown"@,
        }
    }

    /// Whether `name` is read as a capacity: the name it is written with, or
    /// one of its other spellings.
    pub open spec fn reads(self, name: Seq<char>) -> bool {
        match self {
            Capacity::VeryLow => {
                ||| name == "VeryLow"@
                ||| name == "very-low"@
            },
            Capacity::Low => {
                ||| name == "Low"@
                ||| name == "low"@
            },
            Capacity::High => {
                ||| name == "High"@
                ||| name == "high"@
            },
            Capacity::Unknown => {
                ||| name == "Unknown"@
                ||| name == "unknown"@
            },
        }
    }

    /// The name under which a capacity is written on the wire.
    pub fn wire_name(&self) -> (name: &'static str)
        ensures
            name@ == self.wire(),
    {
        match self {
            Capacity::VeryLow => "VeryLow",
            Capacity::Low => "Low",
            Capacity::High => "High",
            Capacity::Unknown => "Unknown",
        }
    }

    /// Reads a name from the wire: `Some` for exactly the names that are
    /// read as a value, `None` for every other text.
    pub fn from_wire(name: &str) -> (decoded: Option<Capacity>)
        ensures
            match decoded {
                Some(value) => value.reads(name@),
                None => forall|value: Capacity| !value.reads(name@),
            },
    {
        if str_eq(name, "VeryLow") {
            Some(Capacity::VeryLow)
        } else if str_eq(name, "very-low") {
            Some(Capacity::VeryLow)
        } else if str_eq(name, "Low") {
            Some(Capacity::Low)
        } else if str_eq(name, "low") {
            Some(Capacity::Low)
        } else if str_eq(name, "High") {
            Some(Capacity::High)
        } else if str_eq(name, "high") {
            Some(Capacity::High)
        } else if str_eq(name, "Unknown") {
            Some(Capacity::Unknown)
        } else if str_eq(name, "unknown") {
            Some(Capacity::Unknown)
        } else {
            None
        }
    }

    /// No name is read as two different values.
    pub proof fn lemma_reads_one(a: Capacity, b: Capacity, name: Seq<char>)
        requires
            a.reads(name),
            b.reads(name),
        ensures
            a == b,
    {
        reveal_strlit("VeryLow");
        reveal_strlit("very-low");
        reveal_strlit("Low");
        reveal_strlit("low");
        reveal_strlit("High");
        reveal_strlit("high");
        reveal_strlit("Unknown");
        reveal_strlit("unknown");
        assert("VeryLow"@.len() == 7 && "VeryLow"@[0] == 'V');
        assert("very-low"@.len() == 8 && "very-low"@[0] == 'v');
        assert("Low"@.len() == 3 && "Low"@[0] == 'L');
        assert("low"@.len() == 3 && "low"@[0] == 'l');
        assert("High"@.len() == 4 && "High"@[0] == 'H');
        assert("high"@.len() == 4 && "high"@[0] == 'h');
        assert("Unknown"@.len() == 7 && "Unknown"@[0] == 'U');
        assert("unknown"@.len() == 7 && "unknown"@[0] == 'u');
    }

    /// The name that a value is written with is read as that value.
    pub proof fn lemma_wire_reads(value: Capacity)
        ensures
            value.reads(value.wire()),
    {
    }
}

impl Decode for Capacity {
    open spec fn accepts(value: Json) -> bool {
        value matches Json::Text(name) && exists|decoded: Capacity| decoded.reads(name@)
    }

    open spec fn renders(value: Json, decoded: Capacity) -> bool {
        value matches Json::Text(name) && decoded.reads(name@)
    }

    fn decode(value: &Json) -> (decoded: Option<Capacity>) {
        match value {
            Json::Text(name) => Capacity::from_wire(name.as_str()),
            _ => None,
        }
    }
}

/// A service point as a search lists it.
pub type ServicePoint = GetLocationResponse;

/// How a service point is identified.
#[derive(Debug, Clone)]
pub struct ServicePointLocation {
    pub ids: Vec<ServicePointLocationId>,
    pub keyword: String,
    pub keyword_id: String,
    /// The kind of location, under the key `type`.
    pub kind: ServicePointLocationType,
    pub lean_locker: Option<bool>,
}

impl Decode for ServicePointLocation {
    open spec fn accepts(value: Json) -> bool {
        &&& value is Object
        &&& Vec::<ServicePointLocationId>::accepts(value.member_or_null("ids"@))
        &&& String::accepts(value.member_or_null("keyword"@))
        &&& String::accepts(value.member_or_null("keywordId"@))
        &&& ServicePointLocationType::accepts(value.member_or_null("type"@))
        &&& Option::<bool>::accepts(value.member_or_null("leanLocker"@))
    }

    open spec fn renders(value: Json, decoded: ServicePointLocation) -> bool {
        &&& Vec::<ServicePointLocationId>::renders(value.member_or_null("ids"@), decoded.ids)
        &&& String::renders(value.member_or_null("keyword"@), decoded.keyword)
        &&& String::renders(value.member_or_null("keywordId"@), decoded.keyword_id)
        &&& ServicePointLocationType::renders(value.member_or_null("type"@), decoded.kind)
        &&& Option::<bool>::renders(value.member_or_null("leanLocker"@), decoded.lean_locker)
    }

    fn decode(value: &Json) -> (decoded: Option<ServicePointLocation>) {
        if !value.is_object() {
            return None;
        }
        let ids = decode_member::<Vec<ServicePointLocationId>>(value, "ids")?;
        let keyword = decode_member::<String>(value, "keyword")?;
        let keyword_id = decode_member::<String>(value, "keywordId")?;
        let kind = decode_member::<ServicePointLocationType>(value, "type")?;
        let lean_locker = decode_member::<Option<bool>>(value, "leanLocker")?;
        Some(ServicePointLocation { ids, keyword, keyword_id, kind, lean_locker })
    }
}

/// The kind of a service point location.
#[derive(Debug, Clone, Copy, PartialEq, Eq, Structural)]
pub enum ServicePointLocationType {
    Servicepoint,
    Locker,
    Postoffice,
    Postbank,
}

impl ServicePointLocationType {
    /// The name under which a kind of location is written on the wire.
    pub open spec fn wire(self) -> Seq<char> {
        match self {
            ServicePointLocationType::Servicepoint => "servicepoint"@,
            ServicePointLocationType::Locker => "locker"@,
            ServicePointLocationType::Postoffice => "postoffice"@,
            ServicePointLocationType::Postbank => "postbank"@,
        }
    }

    /// Whether `name` is read as a kind of location.
    pub open spec fn reads(self, name: Seq<char>) -> bool {
        name == self.wire()
    }

    /// The name under which a kind of location is written on the wire.
    pub fn wire_name(&self) -> (name: &'static str)
        ensures
            name@ == self.wire(),
    {
        match self {
            ServicePointLocationType::Servicepoint => "servicepoint",
            ServicePointLocationType::Locker => "locker",
            ServicePointLocationType::Postoffice => "postoffice",
            ServicePointLocationType::Postbank => "postbank",
        }
    }

    /// Reads a name from the wire: `Some` for exactly the names that are
    /// read as a value, `None` for every other text.
    pub fn from_wire(name: &str) -> (decoded: Option<ServicePointLocationType>)
        ensures
            match decoded {
                Some(value) => value.reads(name@),
                None => forall|value: ServicePointLocationType| !value.reads(name@),
            },
    {
        if str_eq(name, "servicepoint") {
            Some(ServicePointLocationType::Servicepoint)
        } else if str_eq(name, "locker") {
            Some(ServicePointLocationType::Locker)
        } else if str_eq(name, "postoffice") {
            Some(ServicePointLocationType::Postoffice)
        } else if str_eq(name, "postbank") {
            Some(ServicePointLocationType::Postbank)
        } else {
            None
        }
    }

    /// No name is read as two different values.
    pub proof fn lemma_reads_one(
        a: ServicePointLocationType,
        b: ServicePointLocationType,
        name: Seq<char>,
    )
        requires
            a.reads(name),
            b.reads(name),
        ensures
            a == b,
    {
        reveal_strlit("servicepoint");
        reveal_strlit("locker");
        reveal_strlit("postoffice");
        reveal_strlit("postbank");
        assert("servicepoint"@.len() == 12);
        assert("locker"@.len() == 6);
        assert("postoffice"@.len() == 10);
        assert("postbank"@.len() == 8);
    }
}

impl Decode for ServicePointLocationType {
    open spec fn accepts(value: Json) -> bool {
        value matches Json::Text(name) && exists|decoded: ServicePointLocationType|
            decoded.reads(name@)
    }

    open spec fn renders(value: Json, decoded: ServicePointLocationType) -> bool {
        value matches Json::Text(name) && decoded.reads(name@)
    }

    fn decode(value: &Json) -> (decoded: Option<ServicePointLocationType>) {
        match value {
            Json::Text(name) => ServicePointLocationType::from_wire(name.as_str()),
            _ => None,
        }
    }
}

/// The id that a provider gives to a service point.
#[derive(Debug, Clone)]
pub struct ServicePointLocationId {
    pub location_id: String,
    pub provider: String,
}

impl Decode for ServicePointLocationId {
    open spec fn accepts(value: Json) -> bool {
        &&& value is Object
        &&& String::accepts(value.member_or_null("locationId"@))
        &&& String::accepts(value.member_or_null("provider"@))
    }

    open spec fn renders(value: Json, decoded: ServicePointLocationId) -> bool {
        &&& String::renders(value.member_or_null("locationId"@), decoded.location_id)
        &&& String::renders(value.member_or_null("provider"@), decoded.provider)
    }

    fn decode(value: &Json) -> (decoded: Option<ServicePointLocationId>) {
        if !value.is_object() {
            return None;
        }
        let location_id = decode_member::<String>(value, "locationId")?;
        let provider = decode_member::<String>(value, "provider")?;
        Some(ServicePointLocationId { location_id, provider })
    }
}

/// A place specified by an address and geo coordinates.
#[derive(Debug, Clone)]
pub struct Place {
    pub address: Address,
    pub geo: Geo,
    pub contained_in_place: Option<ContainedInPlace>,
}

impl Decode for Place {
    open spec fn accepts(value: Json) -> bool {
        &&& value is Object
        &&& Address::accepts(value.member_or_null("address"@))
        &&& Geo::accepts(value.member_or_null("geo"@))
        &&& Option::<ContainedInPlace>::accepts(value.member_or_null("containedInPlace"@))
    }

    open spec fn renders(value: Json, decoded: Place) -> bool {
        &&& Address::renders(value.member_or_null("address"@), decoded.address)
        &&& Geo::renders(value.member_or_null("geo"@), decoded.geo)
        &&& Option::<ContainedInPlace>::renders(
            value.member_or_null("containedInPlace"@),
            decoded.contained_in_place,
        )
    }

    fn decode(value: &Json) -> (decoded: Option<Place>) {
        if !value.is_object() {
            return None;
        }
        let address = decode_member::<Address>(value, "address")?;
        let geo = decode_member::<Geo>(value, "geo")?;
        let contained_in_place = decode_member::<Option<ContainedInPlace>>(
            value,
            "containedInPlace",
        )?;
        Some(Place { address, geo, contained_in_place })
    }
}

/// The place that contains a service point, such as a shop.
#[derive(Debug, Clone)]
pub struct ContainedInPlace {
    pub name: String,
}

impl Decode for ContainedInPlace {
    open spec fn accepts(value: Json) -> bool {
        &&& value is Object
        &&& String::accepts(value.member_or_null("name"@))
    }

    open spec fn renders(value: Json, decoded: ContainedInPlace) -> bool {
        &&& String::renders(value.member_or_null("name"@), decoded.name)
    }

    fn decode(value: &Json) -> (decoded: Option<ContainedInPlace>) {
        if !value.is_object() {
            return None;
        }
        let name = decode_member::<String>(value, "name")?;
        Some(ContainedInPlace { name })
    }
}

/// Geo coordinates, in degrees.
#[derive(Debug, Clone)]
pub struct Geo {
    pub latitude: Decimal,
    pub longitude: Decimal,
}

impl Decode for Geo {
    open spec fn accepts(value: Json) -> bool {
        &&& value is Object
        &&& Decimal::accepts(value.member_or_null("latitude"@))
        &&& Decimal::accepts(value.member_or_null("longitude"@))
    }

    open spec fn renders(value: Json, decoded: Geo) -> bool {
        &&& Decimal::renders(value.member_or_null("latitude"@), decoded.latitude)
        &&& Decimal::renders(value.member_or_null("longitude"@), decoded.longitude)
    }

    fn decode(value: &Json) -> (decoded: Option<Geo>) {
        if !value.is_object() {
            return None;
        }
        let latitude = decode_member::<Decimal>(value, "latitude")?;
        let longitude = decode_member::<Decimal>(value, "longitude")?;
        Some(Geo { latitude, longitude })
    }
}

/// Opening hours of a service point.
#[derive(Debug, Clone)]
pub struct OpeningHours {
    pub opens: Time,
    pub closes: Time,
    pub day_of_week: Weekday,
}

impl Decode for OpeningHours {
    open spec fn accepts(value: Json) -> bool {
        &&& value is Object
        &&& Time::accepts(value.member_or_null("opens"@))
        &&& Time::accepts(value.member_or_null("closes"@))
        &&& Weekday::accepts(value.member_or_null("dayOfWeek"@))
    }

    open spec fn renders(value: Json, decoded: OpeningHours) -> bool {
        &&& Time::renders(value.member_or_null("opens"@), decoded.opens)
        &&& Time::renders(value.member_or_null("closes"@), decoded.closes)
        &&& Weekday::renders(value.member_or_null("dayOfWeek"@), decoded.day_of_week)
    }

    fn decode(value: &Json) -> (decoded: Option<OpeningHours>) {
        if !value.is_object() {
            return None;
        }
        let opens = decode_member::<Time>(value, "opens")?;
        let closes = decode_member::<Time>(value, "closes")?;
        let day_of_week = decode_member::<Weekday>(value, "dayOfWeek")?;
        Some(OpeningHours { opens, closes, day_of_week })
    }
}

impl OpeningHours {
    /// Two entries that differ only in how they spell the same day are read
    /// as the same opening hours.
    pub proof fn lemma_spelling_of_the_day(
        first: Json,
        second: Json,
        day: Weekday,
        read_first: OpeningHours,
        read_second: OpeningHours,
    )
        requires
            first.member_or_null("opens"@) == second.member_or_null("opens"@),
            first.member_or_null("closes"@) == second.member_or_null("closes"@),
            first.member_or_null("dayOfWeek"@) matches Json::Text(name) && day.reads(name@),
            second.member_or_null("dayOfWeek"@) matches Json::Text(name) && day.reads(name@),
            OpeningHours::renders(first, read_first),
            OpeningHours::renders(second, read_second),
        ensures
            read_first == read_second,
            read_first.day_of_week == day,
    {
        let one = first.member_or_null("dayOfWeek"@);
        let other = second.member_or_null("dayOfWeek"@);
        Weekday::lemma_reads_one(read_first.day_of_week, day, one->Text_0@);
        Weekday::lemma_reads_one(read_second.day_of_week, day, other->Text_0@);
    }
}

/// Closure period of a service point.
#[derive(Debug, Clone)]
pub struct ClosurePeriod {
    /// The kind of closure, under the key `type`.
    pub kind: String,
    pub from_date: Date,
    pub to_date: Date,
}

impl Decode for ClosurePeriod {
    open spec fn accepts(value: Json) -> bool {
        &&& value is Object
        &&& String::accepts(value.member_or_null("type"@))
        &&& Date::accepts(value.member_or_null("fromDate"@))
        &&& Date::accepts(value.member_or_null("toDate"@))
    }

    open spec fn renders(value: Json, decoded: ClosurePeriod) -> bool {
        &&& String::renders(value.member_or_null("type"@), decoded.kind)
        &&& Date::renders(value.member_or_null("fromDate"@), decoded.from_date)
        &&& Date::renders(value.member_or_null("toDate"@), decoded.to_date)
    }

    fn decode(value: &Json) -> (decoded: Option<ClosurePeriod>) {
        if !value.is_object() {
            return None;
        }
        let kind = decode_member::<String>(value, "type")?;
        let from_date = decode_member::<Date>(value, "fromDate")?;
        let to_date = decode_member::<Date>(value, "toDate")?;
        Some(ClosurePeriod { kind, from_date, to_date })
    }
}

/// The DHL provider of a service point.
#[derive(Debug, Clone, Copy, PartialEq, Eq, Structural)]
pub enum ProviderType {
    Parcel,
    Express,
}

impl ProviderType {
    /// The name under which a provider is written on the wire.
    pub open spec fn wire(self) -> Seq<char> {
        match self {
            ProviderType::Parcel => "parcel"@,
            ProviderType::Express => "express"@,
        }
    }

    /// Whether `name` is read as a provider.
    pub open spec fn reads(self, name: Seq<char>) -> bool {
        name == self.wire()
    }

    /// The name under which a provider is written on the wire.
    pub fn wire_name(&self) -> (name: &'static str)
        ensures
            name@ == self.wire(),
    {
        match self {
            ProviderType::Parcel => "parcel",
            ProviderType::Express => "express",
        }
    }

    /// Reads a name from the wire: `Some` for exactly the names that are
    /// read as a value, `None` for every other text.
    pub fn from_wire(name: &str) -> (decoded: Option<ProviderType>)
        ensures
            match decoded {
                Some(value) => value.reads(name@),
                None => forall|value: ProviderType| !value.reads(name@),
            },
    {
        if str_eq(name, "parcel") {
            Some(ProviderType::Parcel)
        } else if str_eq(name, "express") {
            Some(ProviderType::Express)
        } else {
            None
        }
    }

    /// No name is read as two different values.
    pub proof fn lemma_reads_one(a: ProviderType, b: ProviderType, name: Seq<char>)
        requires
            a.reads(name),
            b.reads(name),
        ensures
            a == b,
    {
        reveal_strlit("parcel");
        reveal_strlit("express");
        assert("parcel"@.len() == 6);
        assert("express"@.len() == 7);
    }

    /// The name of each value is written into a query string as it is.
    pub proof fn lemma_wire_kept(value: ProviderType)
        ensures
            percent_encoded(value.wire()) == value.wire(),
    {
        reveal_strlit("parcel");
        reveal_strlit("express");
        let name = value.wire();
        assert forall|i: int| 0 <= i < name.len() implies is_kept_char(#[trigger] name[i]) by {
            match value {
                ProviderType::Parcel => {
                    assert("parcel"@[0] == 'p');
                    assert("parcel"@[1] == 'a');
                    assert("parcel"@[2] == 'r');
                    assert("parcel"@[3] == 'c');
                    assert("parcel"@[4] == 'e');
                    assert("parcel"@[5] == 'l');
                },
                ProviderType::Express => {
                    assert("express"@[0] == 'e');
                    assert("express"@[1] == 'x');
                    assert("express"@[2] == 'p');
                    assert("express"@[3] == 'r');
                    assert("express"@[4] == 'e');
                    assert("express"@[5] == 's');
                    assert("express"@[6] == 's');
                },
            }
        }
        lemma_kept_text(name);
    }
}

/// The kind of service point that a search is narrowed to.
#[derive(Debug, Clone, Copy, PartialEq, Eq, Structural)]
pub enum LocationType {
    Servicepoint,
    Locker,
    Postoffice,
    Postbank,
}

impl LocationType {
    /// The name under which a kind of location is written on the wire.
    pub open spec fn wire(self) -> Seq<char> {
        match self {
            LocationType::Servicepoint => "servicepoint"@,
            LocationType::Locker => "locker"@,
            LocationType::Postoffice => "postoffice"@,
            LocationType::Postbank => "postbank"@,
        }
    }

    /// Whether `name` is read as a kind of location.
    pub open spec fn reads(self, name: Seq<char>) -> bool {
        name == self.wire()
    }

    /// The name under which a kind of location is written on the wire.
    pub fn wire_name(&self) -> (name: &'static str)
        ensures
            name@ == self.wire(),
    {
        match self {
            LocationType::Servicepoint => "servicepoint",
            LocationType::Locker => "locker",
            LocationType::Postoffice => "postoffice",
            LocationType::Postbank => "postbank",
        }
    }

    /// Reads a name from the wire: `Some` for exactly the names that are
    /// read as a value, `None` for every other text.
    pub fn from_wire(name: &str) -> (decoded: Option<LocationType>)
        ensures
            match decoded {
                Some(value) => value.reads(name@),
                None => forall|value: LocationType| !value.reads(name@),
            },
    {
        if str_eq(name, "servicepoint") {
            Some(LocationType::Servicepoint)
        } else if str_eq(name, "locker") {
            Some(LocationType::Locker)
        } else if str_eq(name, "postoffice") {
            Some(LocationType::Postoffice)
        } else if str_eq(name, "postbank") {
            Some(LocationType::Postbank)
        } else {
            None
        }
    }

    /// No name is read as two different values.
    pub proof fn lemma_reads_one(a: LocationType, b: LocationType, name: Seq<char>)
        requires
            a.reads(name),
            b.reads(name),
        ensures
            a == b,
    {
        reveal_strlit("servicepoint");
        reveal_strlit("locker");
        reveal_strlit("postoffice");
        reveal_strlit("postbank");
        assert("servicepoint"@.len() == 12);
        assert("locker"@.len() == 6);
        assert("postoffice"@.len() == 10);
        assert("postbank"@.len() == 8);
    }

    /// The name of each value is written into a query string as it is.
    pub proof fn lemma_wire_kept(value: LocationType)
        ensures
            percent_encoded(value.wire()) == value.wire(),
    {
        reveal_strlit("servicepoint");
        reveal_strlit("locker");
        reveal_strlit("postoffice");
        reveal_strlit("postbank");
        let name = value.wire();
        assert forall|i: int| 0 <= i < name.len() implies is_kept_char(#[trigger] name[i]) by {
            match value {
                LocationType::Servicepoint => {
                    assert("servicepoint"@[0] == 's');
                    assert("servicepoint"@[1] == 'e');
                    assert("servicepoint"@[2] == 'r');
                    assert("servicepoint"@[3] == 'v');
                    assert("servicepoint"@[4] == 'i');
                    assert("servicepoint"@[5] == 'c');
                    assert("servicepoint"@[6] == 'e');
                    assert("servicepoint"@[7] == 'p');
                    assert("servicepoint"@[8] == 'o');
                    assert("servicepoint"@[9] == 'i');
                    assert("servicepoint"@[10] == 'n');
                    assert("servicepoint"@[11] == 't');
                },
                LocationType::Locker => {
                    assert("locker"@[0] == 'l');
                    assert("locker"@[1] == 'o');
                    assert("locker"@[2] == 'c');
                    assert("locker"@[3] == 'k');
                    assert("locker"@[4] == 'e');
                    assert("locker"@[5] == 'r');
                },
                LocationType::Postoffice => {
                    assert("postoffice"@[0] == 'p');
                    assert("postoffice"@[1] == 'o');
                    assert("postoffice"@[2] == 's');
                    assert("postoffice"@[3] == 't');
                    assert("postoffice"@[4] == 'o');
                    assert("postoffice"@[5] == 'f');
                    assert("postoffice"@[6] == 'f');
                    assert("postoffice"@[7] == 'i');
                    assert("postoffice"@[8] == 'c');
                    assert("postoffice"@[9] == 'e');
                },
                LocationType::Postbank => {
                    assert("postbank"@[0] == 'p');
                    assert("postbank"@[1] == 'o');
                    assert("postbank"@[2] == 's');
                    assert("postbank"@[3] == 't');
                    assert("postbank"@[4] == 'b');
                    assert("postbank"@[5] == 'a');
                    assert("postbank"@[6] == 'n');
                    assert("postbank"@[7] == 'k');
                },
            }
        }
        lemma_kept_text(name);
    }
}

/// A day of the week.
///
/// Some responses name a day by a link to schema.org, such as
/// `http://schema.org/Monday`, others by the plain name, such as `Monday`.
/// Both are read.
#[derive(Debug, Clone, Copy, PartialEq, Eq, Structural)]
pub enum Weekday {
    Mon,
    Tue,
    Wed,
    Thu,
    Fri,
    Sat,
    Sun,
}

impl Weekday {
    /// The name under which a day is written on the wire.
    pub open spec fn wire(self) -> Seq<char> {
        match self {
            Weekday::Mon => "Mon"@,
            Weekday::Tue => "Tue"@,
            Weekday::Wed => "Wed"@,
            Weekday::Thu => "Thu"@,
            Weekday::Fri => "Fri"@,
            Weekday::Sat => "Sat"@,
            Weekday::Sun => "Sun"@,
        }
    }

    /// Whether `name` is read as a day: the name it is written with, or
    /// one of its other spellings.
    pub open spec fn reads(self, name: Seq<char>) -> bool {
        match self {
            Weekday::Mon => {
                ||| name == "Mon"@
                ||| name == "http://schema.org/Monday"@
                ||| name == "Monday"@
            },
            Weekday::Tue => {
                ||| name == "Tue"@
                ||| name == "http://schema.org/Tuesday"@
                ||| name == "Tuesday"@
            },
            Weekday::Wed => {
                ||| name == "Wed"@
                ||| name == "http://schema.org/Wednesday"@
                ||| name == "Wednesday"@
            },
            Weekday::Thu => {
                ||| name == "Thu"@
                ||| name == "http://schema.org/Thursday"@
                ||| name == "Thursday"@
            },
            Weekday::Fri => {
                ||| name == "Fri"@
                ||| name == "http://schema.org/Friday"@
                ||| name == "Friday"@
            },
            Weekday::Sat => {
                ||| name == "Sat"@
                ||| name == "http://schema.org/Saturday"@
                ||| name == "Saturday"@
            },
            Weekday::Sun => {
                ||| name == "Sun"@
                ||| name == "http://schema.org/Sunday"@
                ||| name == "Sunday"@
            },
        }
    }

    /// The name under which a day is written on the wire.
    pub fn wire_name(&self) -> (name: &'static str)
        ensures
            name@ == self.wire(),
    {
        match self {
            Weekday::Mon => "Mon",
            Weekday::Tue => "Tue",
            Weekday::Wed => "Wed",
            Weekday::Thu => "Thu",
            Weekday::Fri => "Fri",
            Weekday::Sat => "Sat",
            Weekday::Sun => "Sun",
        }
    }

    /// Reads a name from the wire: `Some` for exactly the names that are
    /// read as a value, `None` for every other text.
    pub fn from_wire(name: &str) -> (decoded: Option<Weekday>)
        ensures
            match decoded {
                Some(value) => value.reads(name@),
                None => forall|value: Weekday| !value.reads(name@),
            },
    {
        if str_eq(name, "Mon") {
            Some(Weekday::Mon)
        } else if str_eq(name, "http://schema.org/Monday") {
            Some(Weekday::Mon)
        } else if str_eq(name, "Monday") {
            Some(Weekday::Mon)
        } else if str_eq(name, "Tue") {
            Some(Weekday::Tue)
        } else if str_eq(name, "http://schema.org/Tuesday") {
            Some(Weekday::Tue)
        } else if str_eq(name, "Tuesday") {
            Some(Weekday::Tue)
        } else if str_eq(name, "Wed") {
            Some(Weekday::Wed)
        } else if str_eq(name, "http://schema.org/Wednesday") {
            Some(Weekday::Wed)
        } else if str_eq(name, "Wednesday") {
            Some(Weekday::Wed)
        } else if str_eq(name, "Thu") {
            Some(Weekday::Thu)
        } else if str_eq(name, "http://schema.org/Thursday") {
            Some(Weekday::Thu)
        } else if str_eq(name, "Thursday") {
            Some(Weekday::Thu)
        } else if str_eq(name, "Fri") {
            Some(Weekday::Fri)
        } else if str_eq(name, "http://schema.org/Friday") {
            Some(Weekday::Fri)
        } else if str_eq(name, "Friday") {
            Some(Weekday::Fri)
        } else if str_eq(name, "Sat") {
            Some(Weekday::Sat)
        } else if str_eq(name, "http://schema.org/Saturday") {
            Some(Weekday::Sat)
        } else if str_eq(name, "Saturday") {
            Some(Weekday::Sat)
        } else if str_eq(name, "Sun") {
            Some(Weekday::Sun)
        } else if str_eq(name, "http://schema.org/Sunday") {
            Some(Weekday::Sun)
        } else if str_eq(name, "Sunday") {
            Some(Weekday::Sun)
        } else {
            None
        }
    }

    /// No name is read as two different values.
    pub proof fn lemma_reads_one(a: Weekday, b: Weekday, name: Seq<char>)
        requires
            a.reads(name),
            b.reads(name),
        ensures
            a == b,
    {
        reveal_strlit("Mon");
        reveal_strlit("http://schema.org/Monday");
        reveal_strlit("Monday");
        reveal_strlit("Tue");
        reveal_strlit("http://schema.org/Tuesday");
        reveal_strlit("Tuesday");
        reveal_strlit("Wed");
        reveal_strlit("http://schema.org/Wednesday");
        reveal_strlit("Wednesday");
        reveal_strlit("Thu");
        reveal_strlit("http://schema.org/Thursday");
        reveal_strlit("Thursday");
        reveal_strlit("Fri");
        reveal_strlit("http://schema.org/Friday");
        reveal_strlit("Friday");
        reveal_strlit("Sat");
        reveal_strlit("http://schema.org/Saturday");
        reveal_strlit("Saturday");
        reveal_strlit("Sun");
        reveal_strlit("http://schema.org/Sunday");
        reveal_strlit("Sunday");
        assert("Mon"@.len() == 3 && "Mon"@[1] == 'o' && "Mon"@[0] == 'M');
        assert({
            &&& "http://schema.org/Monday"@.len() == 24
            &&& "http://schema.org/Monday"@[1] == 't'
            &&& "http://schema.org/Monday"@[18] == 'M'
            &&& "http://schema.org/Monday"@[0] == 'h'
        });
        assert("Monday"@.len() == 6 && "Monday"@[1] == 'o' && "Monday"@[0] == 'M');
        assert("Tue"@.len() == 3 && "Tue"@[1] == 'u' && "Tue"@[0] == 'T');
        assert({
            &&& "http://schema.org/Tuesday"@.len() == 25
            &&& "http://schema.org/Tuesday"@[1] == 't'
            &&& "http://schema.org/Tuesday"@[18] == 'T'
            &&& "http://schema.org/Tuesday"@[0] == 'h'
        });
        assert("Tuesday"@.len() == 7 && "Tuesday"@[1] == 'u' && "Tuesday"@[0] == 'T');
        assert("Wed"@.len() == 3 && "Wed"@[1] == 'e' && "Wed"@[0] == 'W');
        assert({
            &&& "http://schema.org/Wednesday"@.len() == 27
            &&& "http://schema.org/Wednesday"@[1] == 't'
            &&& "http://schema.org/Wednesday"@[18] == 'W'
            &&& "http://schema.org/Wednesday"@[0] == 'h'
        });
        assert("Wednesday"@.len() == 9 && "Wednesday"@[1] == 'e' && "Wednesday"@[0] == 'W');
        assert("Thu"@.len() == 3 && "Thu"@[1] == 'h' && "Thu"@[0] == 'T');
        assert({
            &&& "http://schema.org/Thursday"@.len() == 26
            &&& "http://schema.org/Thursday"@[1] == 't'
            &&& "http://schema.org/Thursday"@[18] == 'T'
            &&& "http://schema.org/Thursday"@[0] == 'h'
        });
        assert("Thursday"@.len() == 8 && "Thursday"@[1] == 'h' && "Thursday"@[0] == 'T');
        assert("Fri"@.len() == 3 && "Fri"@[1] == 'r' && "Fri"@[0] == 'F');
        assert({
            &&& "http://schema.org/Friday"@.len() == 24
            &&& "http://schema.org/Friday"@[1] == 't'
            &&& "http://schema.org/Friday"@[18] == 'F'
            &&& "http://schema.org/Friday"@[0] == 'h'
        });
        assert("Friday"@.len() == 6 && "Friday"@[1] == 'r' && "Friday"@[0] == 'F');
        assert("Sat"@.len() == 3 && "Sat"@[1] == 'a' && "Sat"@[0] == 'S');
        assert({
            &&& "http://schema.org/Saturday"@.len() == 26
            &&& "http://schema.org/Saturday"@[1] == 't'
            &&& "http://schema.org/Saturday"@[18] == 'S'
            &&& "http://schema.org/Saturday"@[0] == 'h'
        });
        assert("Saturday"@.len() == 8 && "Saturday"@[1] == 'a' && "Saturday"@[0] == 'S');
        assert("Sun"@.len() == 3 && "Sun"@[1] == 'u' && "Sun"@[0] == 'S');
        assert({
            &&& "http://schema.org/Sunday"@.len() == 24
            &&& "http://schema.org/Sunday"@[1] == 't'
            &&& "http://schema.org/Sunday"@[18] == 'S'
            &&& "http://schema.org/Sunday"@[0] == 'h'
        });
        assert("Sunday"@.len() == 6 && "Sunday"@[1] == 'u' && "Sunday"@[0] == 'S');
    }

    /// The name that a value is written with is read as that value.
    pub proof fn lemma_wire_reads(value: Weekday)
        ensures
            value.reads(value.wire()),
    {
    }
}

impl Decode for Weekday {
    open spec fn accepts(value: Json) -> bool {
        value matches Json::Text(name) && exists|decoded: Weekday| decoded.reads(name@)
    }

    open spec fn renders(value: Json, decoded: Weekday) -> bool {
        value matches Json::Text(name) && decoded.reads(name@)
    }

    fn decode(value: &Json) -> (decoded: Option<Weekday>) {
        match value {
            Json::Text(name) => Weekday::from_wire(name.as_str()),
            _ => None,
        }
    }
}

impl Weekday {
    /// The full name of the day, such as `Monday`.
    pub open spec fn full_name(self) -> Seq<char> {
        match self {
            Weekday::Mon => "Monday"@,
            Weekday::Tue => "Tuesday"@,
            Weekday::Wed => "Wednesday"@,
            Weekday::Thu => "Thursday"@,
            Weekday::Fri => "Friday"@,
            Weekday::Sat => "Saturday"@,
            Weekday::Sun => "Sunday"@,
        }
    }

    /// Each day is read under its full name and under the link to
    /// schema.org that ends in its full name.
    pub proof fn lemma_both_spellings(day: Weekday)
        ensures
            day.reads(day.full_name()),
            day.reads("http://schema.org/"@ + day.full_name()),
    {
        reveal_strlit("http://schema.org/");
        reveal_strlit("Monday");
        reveal_strlit("http://schema.org/Monday");
        assert("http://schema.org/Monday"@ =~= "http://schema.org/"@ + "Monday"@);
        reveal_strlit("Tuesday");
        reveal_strlit("http://schema.org/Tuesday");
        assert("http://schema.org/Tuesday"@ =~= "http://schema.org/"@ + "Tuesday"@);
        reveal_strlit("Wednesday");
        reveal_strlit("http://schema.org/Wednesday");
        assert("http://schema.org/Wednesday"@ =~= "http://schema.org/"@ + "Wednesday"@);
        reveal_strlit("Thursday");
        reveal_strlit("http://schema.org/Thursday");
        assert("http://schema.org/Thursday"@ =~= "http://schema.org/"@ + "Thursday"@);
        reveal_strlit("Friday");
        reveal_strlit("http://schema.org/Friday");
        assert("http://schema.org/Friday"@ =~= "http://schema.org/"@ + "Friday"@);
        reveal_strlit("Saturday");
        reveal_strlit("http://schema.org/Saturday");
        assert("http://schema.org/Saturday"@ =~= "http://schema.org/"@ + "Saturday"@);
        reveal_strlit("Sunday");
        reveal_strlit("http://schema.org/Sunday");
        assert("http://schema.org/Sunday"@ =~= "http://schema.org/"@ + "Sunday"@);
    }
}

} // verus!
