use dhl_wrapper::api::location_finder_unified::{
    ApiMode, CountryCode, GetSplByIdRequest, GetSplByKeywordIdRequest, GetSplResponse,
    GetSplResponseNotOk, GetSplsByAddressRequest, GetSplsByGeoRequest, GetSplsResponse,
    LocationFinderUnifiedApi, LocationFinderUnifiedRequest, LocationType, ProviderType,
    ResponseNotOk, ServiceType, Weekday,
};
use dhl_wrapper::api::receive;
use dhl_wrapper::error::DhlError;
use dhl_wrapper::json::from_slice;
use dhl_wrapper::number::Decimal;

const POINT: &str = r#"{
    "url": "/locations/8003-4101479",
    "location": {
        "ids": [{"locationId": "8003-4101479", "provider": "parcel"}],
        "keyword": "Postfiliale",
        "keywordId": "433",
        "type": "postoffice"
    },
    "name": "Postfiliale 433",
    "distance": 120,
    "place": {
        "address": {
            "countryCode": "DE",
            "postalCode": "20357",
            "addressLocality": "Hamburg",
            "streetAddress": "Schanzenstr. 41"
        },
        "geo": {"latitude": 53.5642, "longitude": 9.9631}
    },
    "openingHours": [{"opens": "08:00:00", "closes": "18:30:00", "dayOfWeek": "Friday"}],
    "closurePeriods": ["2024-12-24"],
    "serviceTypes": ["parcel:drop-off"],
    "averageCapacityDayOfWeek": [{"dayOfWeek": "http://schema.org/Friday", "capacity": "low"}]
}"#;

#[test]
fn unified_urls() {
    let by_address = GetSplsByAddressRequest::new(CountryCode::De)
        .address_locality(Some("Hamburg".to_string()))
        .postal_code(Some("20355".to_string()))
        .street_address(None)
        .provider_type(Some(ProviderType::Parcel))
        .location_type(Some(LocationType::Postoffice))
        .service_type(Some(ServiceType::Postbank))
        .radius(Some(-5))
        .limit(Some(9223372036854775807))
        .hide_closed_locations(Some(true));
    assert_eq!(
        by_address.url(&ApiMode::Sandbox).unwrap(),
        "https://api-sandbox.dhl.com/location-finder/v1/find-by-address?addressLocality=Hamburg&countryCode=DE&hideClosedLocations=true&limit=9223372036854775807&locationType=postoffice&postalCode=20355&providerType=parcel&radius=-5&serviceType=postbank"
    );
    let by_geo = GetSplsByGeoRequest::new(
        Decimal::parse("53.575264").unwrap(),
        Decimal::parse("9.954053").unwrap(),
    );
    assert_eq!(
        by_geo.url(&ApiMode::Production).unwrap(),
        "https://api.dhl.com/location-finder/v1/find-by-geo?latitude=53.575264&longitude=9.954053"
    );
    let by_geo = by_geo.radius(Some(3000)).limit(Some(5)).hide_closed_locations(Some(false));
    assert_eq!(
        by_geo.url(&ApiMode::Production).unwrap(),
        "https://api.dhl.com/location-finder/v1/find-by-geo?hideClosedLocations=false&latitude=53.575264&limit=5&longitude=9.954053&radius=3000"
    );
    let by_keyword =
        GetSplByKeywordIdRequest::new("433".to_string(), CountryCode::De, "20357".to_string());
    assert_eq!(
        by_keyword.url(&ApiMode::Production).unwrap(),
        "https://api.dhl.com/location-finder/v1/find-by-keyword-id?countryCode=DE&keywordId=433&postalCode=20357"
    );
    let by_id = GetSplByIdRequest::new("8003-4101479".to_string());
    assert_eq!(
        by_id.url(&ApiMode::Sandbox).unwrap(),
        "https://api-sandbox.dhl.com/location-finder/v1/locations/8003-4101479"
    );
}

#[test]
fn unified_calls_need_an_api_key() {
    let request = GetSplByIdRequest::new("1".to_string());
    let without = LocationFinderUnifiedApi::new(ApiMode::Production, String::new());
    assert!(matches!(without.prepare(&request), Err(DhlError::MissingCredentials(_))));
    let with = LocationFinderUnifiedApi::new(ApiMode::Production, "key".to_string());
    let get = with.prepare(&request).unwrap();
    assert_eq!(get.url, "https://api.dhl.com/location-finder/v1/locations/1");
    assert_eq!(get.api_key, "key");
}

#[test]
fn unified_responses_are_read() {
    let point = receive::<GetSplResponse>(POINT.as_bytes()).unwrap();
    assert_eq!(point.url, "/locations/8003-4101479");
    assert_eq!(point.location.kind, "postoffice");
    assert_eq!(point.location.lean_locker, None);
    assert_eq!(point.place.address.country_code, "DE");
    assert_eq!(point.place.address.street_address, "Schanzenstr. 41");
    assert_eq!(point.place.geo.latitude.literal(), "53.5642");
    assert_eq!(point.opening_hours[0].day_of_week, Weekday::Fri);
    assert_eq!(point.closure_periods, vec!["2024-12-24".to_string()]);
    assert_eq!(point.service_types, vec![ServiceType::ParcelDropOff]);
    assert_eq!(point.average_capacity_day_of_week[0].day_of_week, Weekday::Fri);
    assert_eq!(
        point.average_capacity_day_of_week[0].capacity,
        dhl_wrapper::api::location_finder_unified::Capacity::Low
    );

    let body = format!(r#"{{"locations": [{}]}}"#, POINT);
    let list = receive::<GetSplsResponse>(body.as_bytes()).unwrap();
    assert_eq!(list.locations.len(), 1);
    assert_eq!(list.locations[0].distance, 120);
    assert_eq!(list.locations[0].name, "Postfiliale 433");
}

#[test]
fn unified_address_needs_every_part() {
    let body = POINT.replace(r#""countryCode": "DE","#, "");
    assert!(matches!(receive::<GetSplResponse>(body.as_bytes()), Err(DhlError::Serde(_))));
}

#[test]
fn unified_failures_have_a_wide_status() {
    let body = br#"{"status": -9223372036854775808, "title": "X", "detail": "Y"}"#;
    let failure = from_slice::<ResponseNotOk>(body).unwrap();
    assert_eq!(failure.status, i64::MIN);
    assert_eq!(failure.title, "X");
    assert_eq!(failure.detail, "Y");
    let failure = from_slice::<GetSplResponseNotOk>(br#"{"status":404,"title":"a","detail":"b"}"#)
        .unwrap();
    assert_eq!((failure.status, failure.title.as_str(), failure.detail.as_str()), (404, "a", "b"));
    assert!(from_slice::<GetSplResponseNotOk>(br#"{"status":"404","title":"a","detail":"b"}"#)
        .is_err());
}
