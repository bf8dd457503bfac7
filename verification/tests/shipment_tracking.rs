use dhl_wrapper::api::shipment_tracking::{
    GetShipmentTracking, GetShipmentTrackingResponse, ShipmentDetailReferenceType,
    ShipmentStatusCode, ShipmentTrackingApi, ShipmentTrackingRequest,
};
use dhl_wrapper::api::{receive, CountryCode, Division, LanguageCode};
use dhl_wrapper::error::DhlError;
use dhl_wrapper::time::{Date, DateTime, Time};

const TRACKING: &str = r#"{
    "url": "/shipments?trackingNumber=7777777770",
    "prevUrl": null,
    "firstUrl": "/shipments?trackingNumber=7777777770&offset=0",
    "shipments": [{
        "id": "7777777770",
        "service": "express",
        "origin": {
            "address": {"countryCode": "DE", "addressLocality": "Hamburg"},
            "servicePoint": {"url": "https://example.org/sp/1", "label": "Hamburg Hub"}
        },
        "destination": {"address": {"countryCode": "NL", "postalCode": "1043 AG"}},
        "status": {
            "timestamp": "2024-03-02T07:53:47",
            "location": {"address": {"addressLocality": "Amsterdam"}},
            "statusCode": "delivered",
            "status": "DELIVERED",
            "description": "The shipment has been delivered",
            "pieceIds": ["JD014600006281230704"],
            "remark": "Signed by neighbour"
        },
        "estimatedTimeOfDelivery": "2024-03-02T12:00:00",
        "estimatedDeliveryTimeFrame": {
            "estimatedFrom": "2024-03-02T08:00:00",
            "estimatedThrough": "2024-03-02T16:30:00.250"
        },
        "serviceUrl": "https://www.dhl.com/track?id=7777777770",
        "details": {
            "carrier": {"@type": "Organization", "organizationName": "DHL Express"},
            "receiver": {
                "type": "Person",
                "organizationName": "",
                "familyName": "Doe",
                "givenName": "Jane",
                "name": "Jane Doe"
            },
            "product": {"productName": "EXPRESS WORLDWIDE"},
            "proofOfDeliverySignedAvailable": true,
            "proofOfDelivery": {
                "timestamp": "2024-03-02T07:53:47",
                "signatureUrl": "https://example.org/sig",
                "documentUrl": "https://example.org/doc",
                "signed": {"@type": "Person", "familyName": "Doe", "givenName": "John", "name": "John Doe"}
            },
            "totalNumberOfPieces": 2,
            "pieceIds": ["JD014600006281230704", "JD014600006281230705"],
            "weight": {"value": 253.5, "unitText": "kg"},
            "volume": {"value": 12},
            "loadingMeters": 1.5,
            "dimensions": {
                "width": {"value": 20, "unitText": "cm"},
                "height": {"value": 18.25, "unitText": "cm"},
                "length": {"value": 35, "unitText": "cm"}
            },
            "references": [{"number": "YZ3892AB", "type": "customer-reference"}],
            "dgf:routes": [{
                "dgf:vesselName": "MS Example",
                "dgf:voyageFlightNumber": "EX 123",
                "dgf:airportOfDeparture": {
                    "dgf:locationName": "Hamburg",
                    "dgf:locationCode": "HAM",
                    "countryCode": "DE"
                },
                "dgf:airportOfDestination": {"dgf:locationName": "Schiphol", "dgf:locationCode": "AMS"},
                "dgf:estimatedDepartureDate": "2024-03-01T22:15:00",
                "dgf:estimatedArrivalDate": "2024-03-02T01:05:00",
                "dgf:placeOfAcceptance": {"dgf:locationName": "Hamburg"},
                "dgf:portOfLoading": {"dgf:locationName": "Hamburg"},
                "dgf:portOfUnloading": {"dgf:locationName": "Amsterdam"},
                "dgfPlaceOfDelivery": {"dgfLocationName": "Amsterdam"}
            }]
        },
        "events": [
            {
                "timestamp": "2024-03-02T07:53:47",
                "location": {"address": {"addressLocality": "Amsterdam"}},
                "statusCode": "delivered",
                "status": "DELIVERED",
                "description": "The shipment has been delivered"
            },
            {"timestamp": "2024-03-01T19:00:00", "description": "Picked up"}
        ]
    }],
    "possibleAdditionalShipmentsUrl": ["/shipments?trackingNumber=7777777770&service=parcel-de"]
}"#;

fn at(year: i32, month: u32, day: u32, hour: u32, minute: u32, second: u32) -> DateTime {
    DateTime {
        date: Date { year, month, day },
        time: Time { hour, minute, second, nanosecond: 0 },
    }
}

#[test]
fn get_shipment_tracking() {
    let api = ShipmentTrackingApi::new("api_key");
    for tracking_number in "7777777770,00340434292135100186".split(",") {
        let request = GetShipmentTracking::new(tracking_number);
        let get = api.prepare(&request).unwrap();
        assert_eq!(
            get.url,
            format!("https://api-eu.dhl.com/track/shipments?trackingNumber={}", tracking_number)
        );
        assert_eq!(get.api_key, "api_key");
        let response = receive::<GetShipmentTrackingResponse>(TRACKING.as_bytes()).unwrap();
        assert_eq!(response.shipments.is_empty(), false);
    }
}

#[test]
fn tracking_url_with_all_filters() {
    let request = GetShipmentTracking::new("7777777770")
        .service(Some(Division::ParcelDe))
        .requester_country_code(Some(CountryCode::De))
        .origin_country_code(Some(CountryCode::Nl))
        .recipient_postal_code(Some("20355"))
        .language(Some(LanguageCode::En))
        .offset(Some(0))
        .limit(Some(4294967295));
    assert_eq!(
        request.url().unwrap(),
        "https://api-eu.dhl.com/track/shipments?language=en&limit=4294967295&offset=0&originCountryCode=NL&recipientPostalCode=20355&requesterCountryCode=DE&service=parcel-de&trackingNumber=7777777770"
    );
}

#[test]
fn filters_can_be_cleared() {
    let request = GetShipmentTracking::new("1")
        .service(Some(Division::Express))
        .language(Some(LanguageCode::De))
        .limit(Some(3))
        .service(None)
        .limit(None);
    assert_eq!(
        request.url().unwrap(),
        "https://api-eu.dhl.com/track/shipments?language=de&trackingNumber=1"
    );
}

#[test]
fn no_tracking_without_api_key() {
    let api = ShipmentTrackingApi::new("");
    match api.prepare(&GetShipmentTracking::new("7777777770")) {
        Err(DhlError::MissingCredentials(message)) => {
            assert_eq!(message, "no API key is configured for the Shipment Tracking API");
        }
        other => panic!("{:?}", other),
    }
}

#[test]
fn tracking_is_read() {
    let response = receive::<GetShipmentTrackingResponse>(TRACKING.as_bytes()).unwrap();
    assert_eq!(response.url.as_deref(), Some("/shipments?trackingNumber=7777777770"));
    assert_eq!(response.prev_url, None);
    assert_eq!(response.next_url, None);
    assert_eq!(
        response.first_url.as_deref(),
        Some("/shipments?trackingNumber=7777777770&offset=0")
    );
    assert_eq!(response.last_url, None);
    assert_eq!(
        response.possible_additional_shipments_url,
        vec!["/shipments?trackingNumber=7777777770&service=parcel-de".to_string()]
    );
    assert_eq!(response.shipments.len(), 1);
    let shipment = &response.shipments[0];
    assert_eq!(shipment.id, "7777777770");
    assert_eq!(shipment.service, Division::Express);
    assert_eq!(shipment.origin.address.country_code.as_deref(), Some("DE"));
    assert_eq!(shipment.origin.address.address_locality.as_deref(), Some("Hamburg"));
    let point = shipment.origin.service_point.as_ref().unwrap();
    assert_eq!(point.url, "https://example.org/sp/1");
    assert_eq!(point.label, "Hamburg Hub");
    assert_eq!(shipment.destination.address.postal_code.as_deref(), Some("1043 AG"));
    assert!(shipment.destination.service_point.is_none());
    assert_eq!(shipment.status.timestamp, at(2024, 3, 2, 7, 53, 47));
    assert_eq!(shipment.status.status_code, ShipmentStatusCode::Delivered);
    assert_eq!(shipment.status.status, "DELIVERED");
    assert_eq!(shipment.status.description, "The shipment has been delivered");
    assert_eq!(
        shipment.status.piece_ids,
        Some(vec!["JD014600006281230704".to_string()])
    );
    assert_eq!(shipment.status.remark.as_deref(), Some("Signed by neighbour"));
    assert_eq!(shipment.status.next_steps, None);
    assert_eq!(shipment.estimated_time_of_delivery, Some(at(2024, 3, 2, 12, 0, 0)));
    let frame = shipment.estimated_delivery_time_frame.as_ref().unwrap();
    assert_eq!(frame.estimated_from, at(2024, 3, 2, 8, 0, 0));
    assert_eq!(
        frame.estimated_through,
        DateTime {
            date: Date { year: 2024, month: 3, day: 2 },
            time: Time { hour: 16, minute: 30, second: 0, nanosecond: 250_000_000 },
        }
    );
    assert_eq!(shipment.estimated_time_of_delivery_remark, None);
    assert_eq!(shipment.service_url.as_deref(), Some("https://www.dhl.com/track?id=7777777770"));
    assert_eq!(shipment.reroute_url, None);

    let details = &shipment.details;
    let carrier = details.carrier.as_ref().unwrap();
    assert_eq!(carrier.kind, "Organization");
    assert_eq!(carrier.organization_name, "DHL Express");
    let receiver = details.receiver.as_ref().unwrap();
    assert_eq!(receiver.kind, "Person");
    assert_eq!(receiver.family_name, "Doe");
    assert_eq!(receiver.given_name, "Jane");
    assert_eq!(receiver.name, "Jane Doe");
    assert!(details.sender.is_none());
    assert_eq!(details.product.as_ref().unwrap().product_name, "EXPRESS WORLDWIDE");
    assert!(details.proof_of_delivery_signed_available);
    let proof = details.proof_of_delivery.as_ref().unwrap();
    assert_eq!(proof.timestamp, "2024-03-02T07:53:47");
    assert_eq!(proof.signature_url, "https://example.org/sig");
    assert_eq!(proof.document_url, "https://example.org/doc");
    assert_eq!(proof.signed.as_ref().unwrap().name, "John Doe");
    assert_eq!(proof.signed.as_ref().unwrap().kind, "Person");
    assert_eq!(details.total_number_of_pieces, 2);
    assert_eq!(details.piece_ids.len(), 2);
    let weight = details.weight.as_ref().unwrap();
    assert_eq!(weight.value.literal(), "253.5");
    assert_eq!(weight.unit_text.as_deref(), Some("kg"));
    let volume = details.volume.as_ref().unwrap();
    assert_eq!(volume.value.literal(), "12");
    assert_eq!(volume.unit_text, None);
    assert_eq!(details.loading_meters.as_ref().unwrap().literal(), "1.5");
    let dimensions = details.dimensions.as_ref().unwrap();
    assert_eq!(dimensions.width.value.literal(), "20");
    assert_eq!(dimensions.height.value.literal(), "18.25");
    assert_eq!(dimensions.length.value.literal(), "35");
    let references = details.references.as_ref().unwrap();
    assert_eq!(references.len(), 1);
    assert_eq!(references[0].number, "YZ3892AB");
    assert_eq!(references[0].kind, ShipmentDetailReferenceType::CustomerReference);
    let routes = details.dgf_routes.as_ref().unwrap();
    assert_eq!(routes.len(), 1);
    assert_eq!(routes[0].dgf_vessel_name, "MS Example");
    assert_eq!(routes[0].dgf_voyage_flight_number, "EX 123");
    assert_eq!(routes[0].dgf_airport_of_departure.dgf_location_name, "Hamburg");
    assert_eq!(routes[0].dgf_airport_of_departure.dgf_location_code, "HAM");
    assert_eq!(routes[0].dgf_airport_of_departure.country_code, Some(CountryCode::De));
    assert_eq!(routes[0].dgf_airport_of_destination.dgf_location_code, "AMS");
    assert_eq!(routes[0].dgf_airport_of_destination.country_code, None);
    assert_eq!(routes[0].dgf_estimated_departure_date, at(2024, 3, 1, 22, 15, 0));
    assert_eq!(routes[0].dgf_estimated_arrival_date, at(2024, 3, 2, 1, 5, 0));
    assert_eq!(routes[0].dgf_place_of_acceptance.dgf_location_name, "Hamburg");
    assert_eq!(routes[0].dgf_port_of_loading.dgf_location_name, "Hamburg");
    assert_eq!(routes[0].dgf_port_of_unloading.dgf_location_name, "Amsterdam");
    assert_eq!(routes[0].dgf_place_of_delivery.dgf_location_name, "Amsterdam");

    assert_eq!(shipment.events.len(), 2);
    assert_eq!(shipment.events[0].status_code, Some(ShipmentStatusCode::Delivered));
    assert_eq!(shipment.events[0].status.as_deref(), Some("DELIVERED"));
    assert_eq!(shipment.events[1].timestamp, at(2024, 3, 1, 19, 0, 0));
    assert!(shipment.events[1].location.is_none());
    assert_eq!(shipment.events[1].status_code, None);
    assert_eq!(shipment.events[1].description, "Picked up");
}

#[test]
fn tracking_failure_is_told_from_a_response() {
    let body = br#"{"title":"No result found","status":404,"detail":"No shipment with given tracking number found."}"#;
    match receive::<GetShipmentTrackingResponse>(body) {
        Err(DhlError::ResponseNotOk { status, title, detail }) => {
            assert_eq!(status, 404);
            assert_eq!(title, "No result found");
            assert_eq!(detail, "No shipment with given tracking number found.");
        }
        other => panic!("{:?}", other),
    }
}

#[test]
fn tracking_without_shipments_is_no_response() {
    for body in [r#"{"url": "/shipments"}"#, r#"{"shipments": []}"#, r#"{"shipments": {}, "possibleAdditionalShipmentsUrl": []}"#] {
        match receive::<GetShipmentTrackingResponse>(body.as_bytes()) {
            Err(DhlError::Serde(_)) => {}
            other => panic!("{}: {:?}", body, other),
        }
    }
    let empty = receive::<GetShipmentTrackingResponse>(
        br#"{"shipments": [], "possibleAdditionalShipmentsUrl": []}"#,
    )
    .unwrap();
    assert!(empty.shipments.is_empty());
}
