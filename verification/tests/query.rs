use dhl_wrapper::json::Json;
use dhl_wrapper::query::{
    parse_query_string, query_string, scalar_pairs, serializable_to_url_params,
};

fn member(name: &str, value: Json) -> (String, Json) {
    (name.to_string(), value)
}

fn pair(name: &str, value: &str) -> (String, String) {
    (name.to_string(), value.to_string())
}

#[test]
fn object_without_present_fields_has_empty_query() {
    let value = Json::Object(vec![
        member("radius", Json::Null),
        member("limit", Json::Null),
        member("hide_closed_locations", Json::Null),
    ]);
    assert_eq!(serializable_to_url_params(&value), "");
    assert_eq!(serializable_to_url_params(&Json::Object(vec![])), "");
}

#[test]
fn value_that_is_no_object_has_empty_query() {
    assert_eq!(serializable_to_url_params(&Json::Null), "");
    assert_eq!(serializable_to_url_params(&Json::Bool(true)), "");
    assert_eq!(serializable_to_url_params(&Json::Number("5".to_string())), "");
    assert_eq!(serializable_to_url_params(&Json::Text("radius=5".to_string())), "");
    assert_eq!(serializable_to_url_params(&Json::Array(vec![Json::Bool(true)])), "");
}

#[test]
fn one_pair_for_each_present_scalar() {
    let value = Json::Object(vec![
        member("address_locality", Json::Text("Hamburg".to_string())),
        member("hide_closed_locations", Json::Bool(true)),
        member("limit", Json::Null),
        member("radius", Json::Number("3000".to_string())),
    ]);
    let query = serializable_to_url_params(&value);
    assert_eq!(query, "?addressLocality=Hamburg&hideClosedLocations=true&radius=3000");
    assert_eq!(query.matches('?').count(), 1);
    assert_eq!(query.matches('&').count(), 2);
    assert_eq!(query.matches('=').count(), 3);
}

#[test]
fn single_pair_has_no_ampersand() {
    let value = Json::Object(vec![member("limit", Json::Number("5".to_string()))]);
    assert_eq!(serializable_to_url_params(&value), "?limit=5");
}

#[test]
fn booleans_are_written_as_literals() {
    let value = Json::Object(vec![
        member("a", Json::Bool(true)),
        member("b", Json::Bool(false)),
    ]);
    assert_eq!(serializable_to_url_params(&value), "?a=true&b=false");
}

#[test]
fn nested_values_are_dropped() {
    let value = Json::Object(vec![
        member("first", Json::Array(vec![Json::Number("1".to_string())])),
        member("second", Json::Text("kept".to_string())),
        member("third", Json::Object(vec![member("inner", Json::Bool(true))])),
    ]);
    assert_eq!(serializable_to_url_params(&value), "?second=kept");
}

#[test]
fn values_are_percent_encoded() {
    let value = Json::Object(vec![member(
        "street_address",
        Json::Text("Kohlhöfen 16".to_string()),
    )]);
    assert_eq!(serializable_to_url_params(&value), "?streetAddress=Kohlh%C3%B6fen%2016");
    let value = Json::Object(vec![
        member("a", Json::Text("x&y=z".to_string())),
        member("b", Json::Text("100%".to_string())),
        member("c", Json::Text("A-Z.a_z~09:/@".to_string())),
        member("d", Json::Number("1e+16".to_string())),
        member("e", Json::Text("".to_string())),
    ]);
    assert_eq!(
        serializable_to_url_params(&value),
        "?a=x%26y%3Dz&b=100%25&c=A-Z.a_z~09:/@&d=1e%2B16&e="
    );
}

#[test]
fn names_are_put_in_camel_case() {
    let pairs = scalar_pairs(&vec![
        member("requester_country_code", Json::Text("DE".to_string())),
        member("tracking_number", Json::Text("7777777770".to_string())),
        member("limit", Json::Number("1".to_string())),
    ]);
    assert_eq!(
        pairs,
        vec![
            pair("requesterCountryCode", "DE"),
            pair("trackingNumber", "7777777770"),
            pair("limit", "1"),
        ]
    );
}

#[test]
fn query_string_joins_pairs() {
    assert_eq!(query_string(&vec![]), "");
    assert_eq!(query_string(&vec![pair("a", "1")]), "?a=1");
    assert_eq!(query_string(&vec![pair("a", "1"), pair("b", "2"), pair("c", "")]), "?a=1&b=2&c=");
}

#[test]
fn parse_query_string_reads_pairs() {
    assert_eq!(parse_query_string(""), Some(vec![]));
    assert_eq!(parse_query_string("?a=1"), Some(vec![pair("a", "1")]));
    assert_eq!(
        parse_query_string("?a=1&b=two&c="),
        Some(vec![pair("a", "1"), pair("b", "two"), pair("c", "")])
    );
    assert_eq!(parse_query_string("?=x"), Some(vec![pair("", "x")]));
    assert_eq!(parse_query_string("?a=b%3Dc"), Some(vec![pair("a", "b=c")]));
    assert_eq!(
        parse_query_string("?streetAddress=Kohlh%C3%B6fen%2016"),
        Some(vec![pair("streetAddress", "Kohlhöfen 16")])
    );
}

#[test]
fn parse_query_string_rejects_what_is_no_query() {
    assert_eq!(parse_query_string("a=1"), None);
    assert_eq!(parse_query_string("?"), None);
    assert_eq!(parse_query_string("?a"), None);
    assert_eq!(parse_query_string("?a=1&"), None);
    assert_eq!(parse_query_string("?a=1&&b=2"), None);
    assert_eq!(parse_query_string("?a=1&b"), None);
    assert_eq!(parse_query_string("?a=b=c"), None);
    assert_eq!(parse_query_string("?a=b c"), None);
    assert_eq!(parse_query_string("?a=Kohlhöfen"), None);
    assert_eq!(parse_query_string("?a=%"), None);
    assert_eq!(parse_query_string("?a=%2"), None);
    assert_eq!(parse_query_string("?a=%2g"), None);
    assert_eq!(parse_query_string("?a=%3d"), None);
    assert_eq!(parse_query_string("?a=%41"), None);
    assert_eq!(parse_query_string("?a=%C3"), None);
    assert_eq!(parse_query_string("?a%20=1"), Some(vec![pair("a ", "1")]));
}

#[test]
fn serialized_values_are_recovered() {
    let value = Json::Object(vec![
        member("address_locality", Json::Text("Hamburg".to_string())),
        member("hide_closed_locations", Json::Bool(false)),
        member("limit", Json::Number("5".to_string())),
        member("postal_code", Json::Null),
        member("radius", Json::Number("3000".to_string())),
    ]);
    let query = serializable_to_url_params(&value);
    let pairs = parse_query_string(&query).unwrap();
    assert_eq!(
        pairs,
        vec![
            pair("addressLocality", "Hamburg"),
            pair("hideClosedLocations", "false"),
            pair("limit", "5"),
            pair("radius", "3000"),
        ]
    );
    assert_eq!(dhl_wrapper::text::parse_bool(&pairs[1].1), Some(false));
    assert_eq!(dhl_wrapper::text::parse_u64(&pairs[2].1), Some(5));
    assert_eq!(dhl_wrapper::text::parse_u64(&pairs[3].1), Some(3000));
}

#[test]
fn every_value_is_recovered() {
    let pairs = vec![
        pair("street", "a&b=c"),
        pair("na&me", "Kohlhöfen 16"),
        pair("", ""),
        pair("q?", "100% #1 + 2"),
        pair("日本", "\u{1F600}\n\t\0"),
    ];
    let query = query_string(&pairs);
    assert_eq!(
        query,
        "?street=a%26b%3Dc&na%26me=Kohlh%C3%B6fen%2016&=&q%3F=100%25%20%231%20%2B%202&%E6%97%A5%E6%9C%AC=%F0%9F%98%80%0A%09%00"
    );
    assert!(query.is_ascii());
    assert_eq!(query.matches('?').count(), 1);
    assert_eq!(query.matches('&').count(), 4);
    assert_eq!(query.matches('=').count(), 5);
    assert_eq!(parse_query_string(&query), Some(pairs));
}
