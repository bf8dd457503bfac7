use dhl_wrapper::api::location_finder::{
    ApiMode, Capacity, GetLocationById, GetLocationResponse, GetLocationsByAddress,
    GetLocationsResponse, LocationFinderApi, ServicePointLocationType, Weekday,
};
use dhl_wrapper::api::{
    classify, missing_credentials, receive, CountryCode, ResponseNotOk, ServiceType,
    API_KEY_HEADER,
};
use dhl_wrapper::decode::Decode;
use dhl_wrapper::error::DhlError;
use dhl_wrapper::json::{from_slice, Json};
use dhl_wrapper::number::Decimal;
use dhl_wrapper::time::{Date, Time};

const LOCATION: &str = r#"{
    "url": "/locations/8003-4101479",
    "location": {
        "ids": [{"locationId": "8003-4101479", "provider": "parcel"}],
        "keyword": "Postfiliale",
        "keywordId": "433",
        "type": "postoffice",
        "leanLocker": false
    },
    "name": "Postfiliale 433",
    "distance": 120,
    "place": {
        "address": {
            "countryCode": "DE",
            "postalCode": "20357",
            "addressLocality": "Hamburg",
            "streetAddress": "Schanzenstr. 41"
        },
        "geo": {"latitude": 53.5642, "longitude": 9.9631},
        "containedInPlace": {"name": "Budni"}
    },
    "openingHours": [
        {"opens": "08:00:00", "closes": "18:30:00", "dayOfWeek": "http://schema.org/Monday"},
        {"opens": "09:00:00", "closes": "13:00:00", "dayOfWeek": "Saturday"}
    ],
    "closurePeriods": [{"type": "holiday", "fromDate": "2024-12-24", "toDate": "2024-12-26"}],
    "serviceTypes": ["parcel:pick-up", "express:pick-up", "parking"],
    "averageCapacityDayOfWeek": [{"dayOfWeek": "Monday", "capacity": "high"}],
    "availableCapacity": "very-low"
}"#;

#[test]
fn failure_body_gives_response_not_ok() {
    let body = br#"{"status":404,"title":"X","detail":"Y"}"#;
    match receive::<GetLocationResponse>(body) {
        Err(DhlError::ResponseNotOk { status, title, detail }) => {
            assert_eq!(status, 404);
            assert_eq!(title, "X");
            assert_eq!(detail, "Y");
        }
        other => panic!("{:?}", other),
    }
}

#[test]
fn failure_body_may_hold_more_members() {
    let body = br#"{"detail":"No key", "instance":"/x", "status":401, "title":"Unauthorized"}"#;
    match receive::<GetLocationsResponse>(body) {
        Err(DhlError::ResponseNotOk { status, title, detail }) => {
            assert_eq!(status, 401);
            assert_eq!(title, "Unauthorized");
            assert_eq!(detail, "No key");
        }
        other => panic!("{:?}", other),
    }
}

#[test]
fn body_that_only_resembles_a_failure_is_read_as_the_response() {
    for body in [
        r#"{"status":"404","title":"X","detail":"Y"}"#,
        r#"{"status":-1,"title":"X","detail":"Y"}"#,
        r#"{"status":404.5,"title":"X","detail":"Y"}"#,
        r#"{"status":4294967296,"title":"X","detail":"Y"}"#,
        r#"{"status":404,"title":null,"detail":"Y"}"#,
        r#"{"status":404,"title":"X"}"#,
        r#"[404,"X","Y"]"#,
    ] {
        match receive::<GetLocationResponse>(body.as_bytes()) {
            Err(DhlError::Serde(_)) => {}
            other => panic!("{}: {:?}", body, other),
        }
    }
}

#[test]
fn status_of_a_failure_fits_32_bits() {
    let body = br#"{"status":4294967295,"title":"X","detail":"Y"}"#;
    match receive::<GetLocationResponse>(body) {
        Err(DhlError::ResponseNotOk { status, .. }) => assert_eq!(status, 4294967295),
        other => panic!("{:?}", other),
    }
    let value = from_slice::<ResponseNotOk>(br#"{"status":500,"title":"a","detail":"b"}"#).unwrap();
    assert_eq!(value.status, 500);
    assert_eq!(value.title, "a");
    assert_eq!(value.detail, "b");
}

#[test]
fn body_that_is_no_json_gives_serde() {
    for body in ["", "not json", "{", r#"{"url": }"#, "<html></html>"] {
        match receive::<GetLocationResponse>(body.as_bytes()) {
            Err(DhlError::Serde(_)) => {}
            other => panic!("{}: {:?}", body, other),
        }
    }
}

#[test]
fn location_is_read() {
    let location = receive::<GetLocationResponse>(LOCATION.as_bytes()).unwrap();
    assert_eq!(location.url, "/locations/8003-4101479");
    assert_eq!(location.location.ids.len(), 1);
    assert_eq!(location.location.ids[0].location_id, "8003-4101479");
    assert_eq!(location.location.ids[0].provider, "parcel");
    assert_eq!(location.location.keyword, "Postfiliale");
    assert_eq!(location.location.keyword_id, "433");
    assert_eq!(location.location.kind, ServicePointLocationType::Postoffice);
    assert_eq!(location.location.lean_locker, Some(false));
    assert_eq!(location.name, "Postfiliale 433");
    assert_eq!(location.distance, Some(120));
    assert_eq!(location.place.address.country_code.as_deref(), Some("DE"));
    assert_eq!(location.place.address.postal_code.as_deref(), Some("20357"));
    assert_eq!(location.place.address.address_locality.as_deref(), Some("Hamburg"));
    assert_eq!(location.place.address.street_address.as_deref(), Some("Schanzenstr. 41"));
    assert_eq!(location.place.geo.latitude.literal(), "53.5642");
    assert_eq!(location.place.geo.longitude.literal(), "9.9631");
    assert_eq!(location.place.contained_in_place.unwrap().name, "Budni");
    assert_eq!(location.opening_hours.len(), 2);
    assert_eq!(
        location.opening_hours[0].opens,
        Time { hour: 8, minute: 0, second: 0, nanosecond: 0 }
    );
    assert_eq!(
        location.opening_hours[0].closes,
        Time { hour: 18, minute: 30, second: 0, nanosecond: 0 }
    );
    assert_eq!(location.opening_hours[0].day_of_week, Weekday::Mon);
    assert_eq!(location.opening_hours[1].day_of_week, Weekday::Sat);
    assert_eq!(location.closure_periods.len(), 1);
    assert_eq!(location.closure_periods[0].kind, "holiday");
    assert_eq!(location.closure_periods[0].from_date, Date { year: 2024, month: 12, day: 24 });
    assert_eq!(location.closure_periods[0].to_date, Date { year: 2024, month: 12, day: 26 });
    assert_eq!(
        location.service_types,
        vec![ServiceType::ParcelPickUp, ServiceType::ExpressPickUp, ServiceType::Parking]
    );
    assert_eq!(location.average_capacity_day_of_week.len(), 1);
    assert_eq!(location.average_capacity_day_of_week[0].day_of_week, Weekday::Mon);
    assert_eq!(location.average_capacity_day_of_week[0].capacity, Capacity::High);
    assert_eq!(location.available_capacity, Some(Capacity::VeryLow));
}

#[test]
fn members_that_may_be_left_out() {
    let body = r#"{
        "url": "/locations/1",
        "location": {"ids": [], "keyword": "k", "keywordId": "1", "type": "locker"},
        "name": "n",
        "place": {"address": {}, "geo": {"latitude": 1, "longitude": -2.5}},
        "openingHours": [],
        "serviceTypes": []
    }"#;
    let location = receive::<GetLocationResponse>(body.as_bytes()).unwrap();
    assert_eq!(location.distance, None);
    assert!(location.closure_periods.is_empty());
    assert!(location.average_capacity_day_of_week.is_empty());
    assert_eq!(location.available_capacity, None);
    assert_eq!(location.location.lean_locker, None);
    assert_eq!(location.place.address.country_code, None);
    assert_eq!(location.place.contained_in_place.map(|p| p.name), None);
    assert_eq!(location.place.geo.latitude.literal(), "1");
    assert_eq!(location.place.geo.longitude.literal(), "-2.5");
}

#[test]
fn members_that_may_not_be_left_out() {
    let without_name = r#"{
        "url": "/locations/1",
        "location": {"ids": [], "keyword": "k", "keywordId": "1", "type": "locker"},
        "place": {"address": {}, "geo": {"latitude": 1, "longitude": 2}},
        "openingHours": [],
        "serviceTypes": []
    }"#;
    let unknown_weekday = r#"{
        "url": "/locations/1",
        "location": {"ids": [], "keyword": "k", "keywordId": "1", "type": "locker"},
        "name": "n",
        "place": {"address": {}, "geo": {"latitude": 1, "longitude": 2}},
        "openingHours": [{"opens": "08:00:00", "closes": "18:00:00", "dayOfWeek": "Someday"}],
        "serviceTypes": []
    }"#;
    let bad_time = r#"{
        "url": "/locations/1",
        "location": {"ids": [], "keyword": "k", "keywordId": "1", "type": "locker"},
        "name": "n",
        "place": {"address": {}, "geo": {"latitude": 1, "longitude": 2}},
        "openingHours": [{"opens": "25:00:00", "closes": "18:00:00", "dayOfWeek": "Monday"}],
        "serviceTypes": []
    }"#;
    for body in [without_name, unknown_weekday, bad_time, "{}", "null", "[]", "7"] {
        match receive::<GetLocationResponse>(body.as_bytes()) {
            Err(DhlError::Serde(_)) => {}
            other => panic!("{}: {:?}", body, other),
        }
    }
}

#[test]
fn list_of_locations_is_read() {
    let body = format!(r#"{{"locations": [{}, {}]}}"#, LOCATION, LOCATION);
    let found = receive::<GetLocationsResponse>(body.as_bytes()).unwrap();
    assert_eq!(found.locations.len(), 2);
    assert_eq!(found.locations[1].name, "Postfiliale 433");
    let none = receive::<GetLocationsResponse>(br#"{"locations": []}"#).unwrap();
    assert!(none.locations.is_empty());
}

#[test]
fn classify_takes_a_parsed_document() {
    let failure = Json::Object(vec![
        ("detail".to_string(), Json::Text("Y".to_string())),
        ("status".to_string(), Json::Number("404".to_string())),
        ("title".to_string(), Json::Text("X".to_string())),
    ]);
    match classify::<GetLocationsResponse>(Ok(failure)) {
        Err(DhlError::ResponseNotOk { status, title, detail }) => {
            assert_eq!((status, title.as_str(), detail.as_str()), (404, "X", "Y"));
        }
        other => panic!("{:?}", other),
    }
    let response = Json::Object(vec![("locations".to_string(), Json::Array(vec![]))]);
    assert!(classify::<GetLocationsResponse>(Ok(response)).unwrap().locations.is_empty());
    let other = Json::Object(vec![("locations".to_string(), Json::Null)]);
    assert!(matches!(classify::<GetLocationsResponse>(Ok(other)), Err(DhlError::Serde(_))));
    let broken = serde_json::from_str::<serde_json::Value>("{").unwrap_err();
    let text = broken.to_string();
    match classify::<GetLocationsResponse>(Err(broken)) {
        Err(DhlError::Serde(error)) => assert_eq!(error.to_string(), text),
        other => panic!("{:?}", other),
    }
}

#[test]
fn no_call_without_api_key() {
    let api = LocationFinderApi::new(ApiMode::Production, "");
    let by_address = GetLocationsByAddress::new(CountryCode::De);
    match api.prepare(&by_address) {
        Err(DhlError::MissingCredentials(message)) => {
            assert_eq!(message, "no API key is configured for the Location Finder API");
        }
        other => panic!("{:?}", other),
    }
    let by_id = GetLocationById::new("8003-4101479");
    assert!(matches!(api.prepare(&by_id), Err(DhlError::MissingCredentials(_))));
    assert!(matches!(
        missing_credentials("Shipment Tracking API"),
        DhlError::MissingCredentials(_)
    ));
}

#[test]
fn call_with_api_key() {
    let api = LocationFinderApi::new(ApiMode::Sandbox, "secret");
    let request = GetLocationsByAddress::new(CountryCode::De).postal_code(Some("20355"));
    let get = api.prepare(&request).unwrap();
    assert_eq!(
        get.url,
        "https://api-sandbox.dhl.com/location-finder/v1/find-by-address?countryCode=DE&postalCode=20355"
    );
    assert_eq!(get.api_key, "secret");
    assert_eq!(API_KEY_HEADER, "DHL-API-Key");
}

#[test]
fn numbers_are_read_as_their_literals() {
    let numbers = from_slice::<Vec<Decimal>>(b"[1, 2.50, -3e2, 0.000001, 1e16, -0]").unwrap();
    let literals: Vec<&str> = numbers.iter().map(|n| n.literal()).collect();
    assert_eq!(literals, vec!["1", "2.5", "-300.0", "1e-6", "1e+16", "-0.0"]);
    assert!(from_slice::<Vec<Decimal>>(b"[1, \"2\"]").is_err());
    assert!(from_slice::<Vec<Decimal>>(b"[1, 2").is_err());
    assert_eq!(from_slice::<Vec<u32>>(b"[1, 20, 4294967295]").unwrap(), vec![1, 20, 4294967295]);
    assert!(from_slice::<Vec<u32>>(b"[1.0]").is_err());
    assert_eq!(from_slice::<Vec<i64>>(b"[-1, 0, 9223372036854775807]").unwrap(), vec![-1, 0, i64::MAX]);
    assert_eq!(
        from_slice::<Vec<Option<String>>>(br#"["a", null, "\u00e4"]"#).unwrap(),
        vec![Some("a".to_string()), None, Some("ä".to_string())]
    );
}

#[test]
fn members_are_looked_up_by_name() {
    let value = Json::Object(vec![
        ("a".to_string(), Json::Number("1".to_string())),
        ("b".to_string(), Json::Text("two".to_string())),
        ("a".to_string(), Json::Bool(true)),
    ]);
    assert!(value.is_object());
    assert!(matches!(value.get("a"), Some(Json::Number(n)) if n == "1"));
    assert!(matches!(value.get("b"), Some(Json::Text(t)) if t == "two"));
    assert!(value.get("c").is_none());
    assert!(value.get("").is_none());
    assert!(!Json::Null.is_object());
    assert!(Json::Null.get("a").is_none());
    assert!(Json::Array(vec![]).get("a").is_none());
}

#[test]
fn plain_values_are_decoded() {
    assert_eq!(String::decode(&Json::Text("x".to_string())), Some("x".to_string()));
    assert_eq!(String::decode(&Json::Null), None);
    assert_eq!(bool::decode(&Json::Bool(true)), Some(true));
    assert_eq!(bool::decode(&Json::Text("true".to_string())), None);
    assert_eq!(u32::decode(&Json::Number("120".to_string())), Some(120));
    assert_eq!(u32::decode(&Json::Number("4294967295".to_string())), Some(u32::MAX));
    assert_eq!(u32::decode(&Json::Number("4294967296".to_string())), None);
    assert_eq!(u32::decode(&Json::Number("-1".to_string())), None);
    assert_eq!(u32::decode(&Json::Number("1.0".to_string())), None);
    assert_eq!(u32::decode(&Json::Text("1".to_string())), None);
    assert_eq!(i64::decode(&Json::Number("-120".to_string())), Some(-120));
    assert_eq!(i64::decode(&Json::Number("9223372036854775808".to_string())), None);
    assert_eq!(Option::<bool>::decode(&Json::Null), Some(None));
    assert_eq!(Option::<bool>::decode(&Json::Bool(false)), Some(Some(false)));
    assert_eq!(Option::<bool>::decode(&Json::Number("0".to_string())), None);
    let list = Json::Array(vec![Json::Bool(true), Json::Bool(false)]);
    assert_eq!(Vec::<bool>::decode(&list), Some(vec![true, false]));
    let mixed = Json::Array(vec![Json::Bool(true), Json::Null]);
    assert_eq!(Vec::<bool>::decode(&mixed), None);
    assert_eq!(Vec::<Option<bool>>::decode(&mixed), Some(vec![Some(true), None]));
    assert_eq!(Vec::<bool>::decode(&Json::Null), None);
}

#[test]
fn dates_and_times_are_read_by_chrono() {
    let text = |t: &str| Json::Text(t.to_string());
    assert_eq!(Date::decode(&text("2024-02-29")), Some(Date { year: 2024, month: 2, day: 29 }));
    assert_eq!(Date::decode(&text("2023-02-29")), None);
    assert_eq!(Date::decode(&text("29.02.2024")), None);
    assert_eq!(Date::decode(&Json::Null), None);
    assert_eq!(
        Time::decode(&text("08:30:15")),
        Some(Time { hour: 8, minute: 30, second: 15, nanosecond: 0 })
    );
    assert_eq!(
        Time::decode(&text("23:59:59.5")),
        Some(Time { hour: 23, minute: 59, second: 59, nanosecond: 500_000_000 })
    );
    assert_eq!(
        Time::decode(&text("08:30")),
        Some(Time { hour: 8, minute: 30, second: 0, nanosecond: 0 })
    );
    assert_eq!(Time::decode(&text("24:00:00")), None);
    assert_eq!(Time::decode(&text("8 o'clock")), None);
    assert_eq!(Time::decode(&Json::Number("8".to_string())), None);
}
