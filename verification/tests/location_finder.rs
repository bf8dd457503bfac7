use dhl_wrapper::api::location_finder::{
    ApiMode, GetLocationById, GetLocationByKeywordId, GetLocationResponse, GetLocationsByAddress,
    GetLocationsByGeo, GetLocationsResponse, LocationFinderApi, LocationFinderRequest,
    LocationType, ProviderType,
};
use dhl_wrapper::api::{receive, CountryCode, ServiceType};
use dhl_wrapper::number::Decimal;

const LOCATION: &str = r#"{
    "url": "/locations/8003-4101479",
    "location": {
        "ids": [{"locationId": "8003-4101479", "provider": "parcel"}],
        "keyword": "Postfiliale",
        "keywordId": "433",
        "type": "postoffice"
    },
    "name": "Postfiliale 433",
    "distance": 120,
    "place": {
        "address": {"countryCode": "DE", "postalCode": "20357"},
        "geo": {"latitude": 53.5642, "longitude": 9.9631}
    },
    "openingHours": [
        {"opens": "08:00:00", "closes": "18:30:00", "dayOfWeek": "http://schema.org/Monday"}
    ],
    "closurePeriods": [],
    "serviceTypes": ["parcel:pick-up"],
    "averageCapacityDayOfWeek": []
}"#;

fn locations() -> String {
    format!(r#"{{"locations": [{}]}}"#, LOCATION)
}

#[test]
fn get_service_point_locations() {
    let api = LocationFinderApi::new(ApiMode::Production, "api_key");

    // by address

    let request = GetLocationsByAddress::new(CountryCode::De)
        .address_locality(Some("Hamburg"))
        .postal_code(Some("20355"))
        .street_address(Some("Kohlhöfen 16"));
    let get = api.prepare(&request).unwrap();
    assert_eq!(
        get.url,
        "https://api.dhl.com/location-finder/v1/find-by-address?addressLocality=Hamburg&countryCode=DE&postalCode=20355&streetAddress=Kohlh%C3%B6fen%2016"
    );
    assert_eq!(get.api_key, "api_key");
    let response = receive::<GetLocationsResponse>(locations().as_bytes()).unwrap();
    assert_eq!(response.locations.is_empty(), false);

    // by geo

    let request = GetLocationsByGeo::new(coordinate("53.575264"), coordinate("9.954053"));
    let get = api.prepare(&request).unwrap();
    assert_eq!(
        get.url,
        "https://api.dhl.com/location-finder/v1/find-by-geo?latitude=53.575264&longitude=9.954053"
    );
    let response = receive::<GetLocationsResponse>(locations().as_bytes()).unwrap();
    assert_eq!(response.locations.is_empty(), false);

    let request = GetLocationsByGeo::new(coordinate("53.575264"), coordinate("9.954053"))
        .provider_type(Some(ProviderType::Parcel))
        .location_type(Some(LocationType::Servicepoint))
        .service_type(Some(ServiceType::ParcelPickUp))
        .radius(Some(3000))
        .limit(Some(5))
        .hide_closed_locations(Some(false));
    let get = api.prepare(&request).unwrap();
    assert_eq!(
        get.url,
        "https://api.dhl.com/location-finder/v1/find-by-geo?hideClosedLocations=false&latitude=53.575264&limit=5&locationType=servicepoint&longitude=9.954053&providerType=parcel&radius=3000&serviceType=parcel:pick-up"
    );
    let response = receive::<GetLocationsResponse>(locations().as_bytes()).unwrap();
    assert_eq!(response.locations.is_empty(), false);

    // by keyword id

    let request = GetLocationByKeywordId::new("433", CountryCode::De, "20357");
    let get = api.prepare(&request).unwrap();
    assert_eq!(
        get.url,
        "https://api.dhl.com/location-finder/v1/find-by-keyword-id?countryCode=DE&keywordId=433&postalCode=20357"
    );
    let response = receive::<GetLocationResponse>(LOCATION.as_bytes()).unwrap();
    assert_eq!(response.opening_hours.is_empty(), false);

    // by id

    let request = GetLocationById::new("8003-4101479");
    let get = api.prepare(&request).unwrap();
    assert_eq!(get.url, "https://api.dhl.com/location-finder/v1/locations/8003-4101479");
    let response = receive::<GetLocationResponse>(LOCATION.as_bytes()).unwrap();
    assert_eq!(response.opening_hours.is_empty(), false);
}

fn coordinate(text: &str) -> Decimal {
    Decimal::parse(text).unwrap()
}

#[test]
fn by_geo_without_filters_has_latitude_and_longitude() {
    let request = GetLocationsByGeo::new(coordinate("53.575264"), coordinate("9.954053"));
    assert_eq!(
        request.url(&ApiMode::Production).unwrap(),
        "https://api.dhl.com/location-finder/v1/find-by-geo?latitude=53.575264&longitude=9.954053"
    );
}

#[test]
fn by_geo_with_all_filters() {
    let request = GetLocationsByGeo::new(coordinate("53.575264"), coordinate("9.954053"))
        .provider_type(Some(ProviderType::Parcel))
        .location_type(Some(LocationType::Servicepoint))
        .service_type(Some(ServiceType::ParcelPickUp))
        .radius(Some(3000))
        .limit(Some(5))
        .hide_closed_locations(Some(false));
    assert_eq!(
        request.url(&ApiMode::Sandbox).unwrap(),
        "https://api-sandbox.dhl.com/location-finder/v1/find-by-geo?hideClosedLocations=false&latitude=53.575264&limit=5&locationType=servicepoint&longitude=9.954053&providerType=parcel&radius=3000&serviceType=parcel:pick-up"
    );
}

#[test]
fn by_address_names_are_camel_case() {
    let request = GetLocationsByAddress::new(CountryCode::De)
        .address_locality(Some("Hamburg"))
        .postal_code(Some("20355"))
        .street_address(Some("Kohlhöfen 16"));
    assert_eq!(
        request.url(&ApiMode::Production).unwrap(),
        "https://api.dhl.com/location-finder/v1/find-by-address?addressLocality=Hamburg&countryCode=DE&postalCode=20355&streetAddress=Kohlh%C3%B6fen%2016"
    );
}

#[test]
fn by_keyword_id() {
    let request = GetLocationByKeywordId::new("433", CountryCode::De, "20357");
    assert_eq!(
        request.url(&ApiMode::Production).unwrap(),
        "https://api.dhl.com/location-finder/v1/find-by-keyword-id?countryCode=DE&keywordId=433&postalCode=20357"
    );
}

#[test]
fn by_id_has_no_query() {
    let request = GetLocationById::new("8003-4101479");
    assert_eq!(
        request.url(&ApiMode::Production).unwrap(),
        "https://api.dhl.com/location-finder/v1/locations/8003-4101479"
    );
    assert_eq!(
        request.url(&ApiMode::Sandbox).unwrap(),
        "https://api-sandbox.dhl.com/location-finder/v1/locations/8003-4101479"
    );
}

#[test]
fn by_address_with_country_only() {
    let request = GetLocationsByAddress::new(CountryCode::Nl);
    assert_eq!(
        request.url(&ApiMode::Sandbox).unwrap(),
        "https://api-sandbox.dhl.com/location-finder/v1/find-by-address?countryCode=NL"
    );
}

#[test]
fn by_address_with_all_filters() {
    let request = GetLocationsByAddress::new(CountryCode::Gb)
        .address_locality(Some("London"))
        .postal_code(Some("SW1A 1AA"))
        .street_address(Some("The Mall"))
        .provider_type(Some(ProviderType::Express))
        .location_type(Some(LocationType::Locker))
        .service_type(Some(ServiceType::ExpressPickUp))
        .radius(Some(0))
        .limit(Some(50))
        .hide_closed_locations(Some(true));
    assert_eq!(
        request.url(&ApiMode::Production).unwrap(),
        "https://api.dhl.com/location-finder/v1/find-by-address?addressLocality=London&countryCode=GB&hideClosedLocations=true&limit=50&locationType=locker&postalCode=SW1A%201AA&providerType=express&radius=0&serviceType=xpress:pick-up&streetAddress=The%20Mall"
    );
}

#[test]
fn filters_can_be_set_again_and_cleared() {
    let request = GetLocationsByAddress::new(CountryCode::De)
        .postal_code(Some("20355"))
        .radius(Some(100))
        .radius(Some(200))
        .postal_code(None)
        .limit(Some(1))
        .limit(None);
    assert_eq!(
        request.url(&ApiMode::Production).unwrap(),
        "https://api.dhl.com/location-finder/v1/find-by-address?countryCode=DE&radius=200"
    );
}

#[test]
fn request_object_holds_a_null_for_each_filter_not_set() {
    let request = GetLocationsByGeo::new(coordinate("1.5"), coordinate("-2")).limit(Some(7));
    match request.to_value() {
        dhl_wrapper::json::Json::Object(members) => {
            let names: Vec<&str> = members.iter().map(|m| m.0.as_str()).collect();
            assert_eq!(
                names,
                vec![
                    "hide_closed_locations",
                    "latitude",
                    "limit",
                    "location_type",
                    "longitude",
                    "provider_type",
                    "radius",
                    "service_type"
                ]
            );
            let nulls = members
                .iter()
                .filter(|m| matches!(m.1, dhl_wrapper::json::Json::Null))
                .count();
            assert_eq!(nulls, 5);
        }
        other => panic!("{:?}", other),
    }
}

#[test]
fn url_holds_no_space_and_no_character_beyond_ascii() {
    let request = GetLocationsByAddress::new(CountryCode::De)
        .address_locality(Some("Köln & Bonn"))
        .postal_code(Some("a=b?c#d"))
        .street_address(Some("Kohlhöfen 16"));
    let url = request.url(&ApiMode::Production).unwrap();
    assert_eq!(
        url,
        "https://api.dhl.com/location-finder/v1/find-by-address?addressLocality=K%C3%B6ln%20%26%20Bonn&countryCode=DE&postalCode=a%3Db%3Fc%23d&streetAddress=Kohlh%C3%B6fen%2016"
    );
    assert!(url.is_ascii());
    assert!(!url.contains(' '));
    assert_eq!(url.matches('?').count(), 1);
    assert_eq!(url.matches('&').count(), 3);
    assert_eq!(url.matches('=').count(), 4);
}

#[test]
fn service_type_in_the_url_is_read_back() {
    let all = [
        ServiceType::ParcelPickUp,
        ServiceType::ParcelDropOff,
        ServiceType::ExpressPickUp,
        ServiceType::ExpressDropOff,
        ServiceType::ExpressDropOffAccount,
        ServiceType::ExpressDropOffEasy,
        ServiceType::ExpressDropOffPrelabeled,
        ServiceType::ParcelPickUpRegistered,
        ServiceType::ParcelPickUpUnregistered,
        ServiceType::ParcelDropOffUnregistered,
        ServiceType::LetterService,
        ServiceType::Postbank,
        ServiceType::CashOnDelivery,
        ServiceType::Franking,
        ServiceType::CashService,
        ServiceType::PackagingMaterial,
        ServiceType::Postident,
        ServiceType::AgeVerification,
        ServiceType::HandicappedAccess,
        ServiceType::Parking,
    ];
    for service in all {
        let request = GetLocationsByAddress::new(CountryCode::De).service_type(Some(service));
        let url = request.url(&ApiMode::Production).unwrap();
        let written = url.split("&serviceType=").nth(1).unwrap();
        assert_eq!(written, service.wire_name());
        assert_eq!(ServiceType::from_wire(written), Some(service));
    }
}
