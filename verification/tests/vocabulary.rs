use dhl_wrapper::api::location_finder::{
    Capacity, LocationType, ProviderType, ServicePointLocationType, Weekday,
};
use dhl_wrapper::api::location_finder_unified;
use dhl_wrapper::api::location_finder_unified::Devisions;
use dhl_wrapper::api::shipment_tracking::{ShipmentDetailReferenceType, ShipmentStatusCode};
use dhl_wrapper::api::{CountryCode, Division, LanguageCode, ServiceType};
use dhl_wrapper::decode::Decode;
use dhl_wrapper::json::Json;

fn text(name: &str) -> Json {
    Json::Text(name.to_string())
}

#[test]
fn weekday_is_read_under_both_spellings() {
    assert_eq!(Weekday::from_wire("Monday"), Some(Weekday::Mon));
    assert_eq!(Weekday::from_wire("http://schema.org/Monday"), Some(Weekday::Mon));
    assert_eq!(Weekday::from_wire("Monday"), Weekday::from_wire("http://schema.org/Monday"));
}

#[test]
fn every_weekday_is_read_under_every_spelling() {
    let days = [
        (Weekday::Mon, "Mon", "Monday"),
        (Weekday::Tue, "Tue", "Tuesday"),
        (Weekday::Wed, "Wed", "Wednesday"),
        (Weekday::Thu, "Thu", "Thursday"),
        (Weekday::Fri, "Fri", "Friday"),
        (Weekday::Sat, "Sat", "Saturday"),
        (Weekday::Sun, "Sun", "Sunday"),
    ];
    for (day, short, long) in days {
        assert_eq!(day.wire_name(), short);
        assert_eq!(Weekday::from_wire(short), Some(day));
        assert_eq!(Weekday::from_wire(long), Some(day));
        assert_eq!(Weekday::from_wire(&format!("http://schema.org/{}", long)), Some(day));
        assert_eq!(Weekday::decode(&text(long)), Some(day));
    }
}

#[test]
fn weekday_rejects_other_texts() {
    assert_eq!(Weekday::from_wire("monday"), None);
    assert_eq!(Weekday::from_wire("MONDAY"), None);
    assert_eq!(Weekday::from_wire("https://schema.org/Monday"), None);
    assert_eq!(Weekday::from_wire("http://schema.org/Mon"), None);
    assert_eq!(Weekday::from_wire("Mo"), None);
    assert_eq!(Weekday::from_wire(""), None);
    assert_eq!(Weekday::decode(&Json::Number("1".to_string())), None);
    assert_eq!(Weekday::decode(&Json::Null), None);
}

#[test]
fn service_types_are_written_and_read() {
    let names = [
        (ServiceType::ParcelPickUp, "parcel:pick-up"),
        (ServiceType::ParcelDropOff, "parcel:drop-off"),
        (ServiceType::ExpressPickUp, "xpress:pick-up"),
        (ServiceType::ExpressDropOff, "express:drop-off"),
        (ServiceType::ExpressDropOffAccount, "express:drop-off-account"),
        (ServiceType::ExpressDropOffEasy, "express:drop-off-easy"),
        (ServiceType::ExpressDropOffPrelabeled, "express:drop-off-prelabeled"),
        (ServiceType::ParcelPickUpRegistered, "parcel:pick-up-registere"),
        (ServiceType::ParcelPickUpUnregistered, "parcel:pick-up-unregistered"),
        (ServiceType::ParcelDropOffUnregistered, "parcel:drop-off-unregistered"),
        (ServiceType::LetterService, "letter-service"),
        (ServiceType::Postbank, "postbank"),
        (ServiceType::CashOnDelivery, "cash-on-delivery"),
        (ServiceType::Franking, "franking"),
        (ServiceType::CashService, "cash-service"),
        (ServiceType::PackagingMaterial, "packaging-material"),
        (ServiceType::Postident, "postident"),
        (ServiceType::AgeVerification, "age-verification"),
        (ServiceType::HandicappedAccess, "handicapped-access"),
        (ServiceType::Parking, "parking"),
    ];
    for (service, name) in names {
        assert_eq!(service.wire_name(), name);
        assert_eq!(ServiceType::from_wire(name), Some(service));
        assert_eq!(ServiceType::decode(&text(name)), Some(service));
    }
}

#[test]
fn service_types_with_two_spellings() {
    assert_eq!(ServiceType::from_wire("express:pick-up"), Some(ServiceType::ExpressPickUp));
    assert_eq!(ServiceType::from_wire("xpress:pick-up"), Some(ServiceType::ExpressPickUp));
    assert_eq!(
        ServiceType::from_wire("parcel:pick-up-registered"),
        Some(ServiceType::ParcelPickUpRegistered)
    );
    assert_eq!(
        ServiceType::from_wire("parcel:pick-up-registere"),
        Some(ServiceType::ParcelPickUpRegistered)
    );
    assert_eq!(ServiceType::from_wire("parcel:pickup"), None);
    assert_eq!(ServiceType::from_wire("ParcelPickUp"), None);
    assert_eq!(ServiceType::from_wire(""), None);
}

#[test]
fn divisions_are_written_and_read() {
    let names = [
        (Division::Express, "express"),
        (Division::ParcelDe, "parcel-de"),
        (Division::Ecommerce, "ecommerce"),
        (Division::Dgf, "dgf"),
        (Division::ParcelUk, "parcel-uk"),
        (Division::PostDe, "post-de"),
        (Division::Sameday, "sameday"),
        (Division::Freight, "freight"),
        (Division::ParcelNl, "parcel-nl"),
        (Division::ParcelPl, "parcel-pl"),
        (Division::Dsc, "dsc"),
    ];
    for (division, name) in names {
        assert_eq!(division.wire_name(), name);
        assert_eq!(Division::from_wire(name), Some(division));
        assert_eq!(Division::decode(&text(name)), Some(division));
    }
    assert_eq!(Division::from_wire("Express"), None);
    assert_eq!(Division::from_wire("parcel_de"), None);
}

#[test]
fn capacities_are_read_under_both_spellings() {
    let names = [
        (Capacity::VeryLow, "VeryLow", "very-low"),
        (Capacity::Low, "Low", "low"),
        (Capacity::High, "High", "high"),
        (Capacity::Unknown, "Unknown", "unknown"),
    ];
    for (capacity, written, other) in names {
        assert_eq!(capacity.wire_name(), written);
        assert_eq!(Capacity::from_wire(written), Some(capacity));
        assert_eq!(Capacity::from_wire(other), Some(capacity));
    }
    assert_eq!(Capacity::from_wire("medium"), None);
}

#[test]
fn unified_capacity_knows_three_values() {
    assert_eq!(location_finder_unified::Capacity::from_wire("very-low"), Some(location_finder_unified::Capacity::VeryLow));
    assert_eq!(location_finder_unified::Capacity::from_wire("Low"), Some(location_finder_unified::Capacity::Low));
    assert_eq!(location_finder_unified::Capacity::from_wire("high"), Some(location_finder_unified::Capacity::High));
    assert_eq!(location_finder_unified::Capacity::from_wire("unknown"), None);
}

#[test]
fn kinds_of_location() {
    let names = ["servicepoint", "locker", "postoffice", "postbank"];
    let kinds = [
        LocationType::Servicepoint,
        LocationType::Locker,
        LocationType::Postoffice,
        LocationType::Postbank,
    ];
    let found = [
        ServicePointLocationType::Servicepoint,
        ServicePointLocationType::Locker,
        ServicePointLocationType::Postoffice,
        ServicePointLocationType::Postbank,
    ];
    for i in 0..4 {
        assert_eq!(kinds[i].wire_name(), names[i]);
        assert_eq!(LocationType::from_wire(names[i]), Some(kinds[i]));
        assert_eq!(found[i].wire_name(), names[i]);
        assert_eq!(ServicePointLocationType::from_wire(names[i]), Some(found[i]));
    }
    assert_eq!(LocationType::from_wire("Locker"), None);
    assert_eq!(ServicePointLocationType::from_wire("shop"), None);
}

#[test]
fn providers() {
    assert_eq!(ProviderType::Parcel.wire_name(), "parcel");
    assert_eq!(ProviderType::Express.wire_name(), "express");
    assert_eq!(ProviderType::from_wire("parcel"), Some(ProviderType::Parcel));
    assert_eq!(ProviderType::from_wire("express"), Some(ProviderType::Express));
    assert_eq!(ProviderType::from_wire("freight"), None);
}

#[test]
fn status_codes() {
    let names = [
        (ShipmentStatusCode::PreTransit, "pre-transit"),
        (ShipmentStatusCode::Transit, "transit"),
        (ShipmentStatusCode::Delivered, "delivered"),
        (ShipmentStatusCode::Failure, "failure"),
        (ShipmentStatusCode::Unknown, "unknown"),
    ];
    for (code, name) in names {
        assert_eq!(code.wire_name(), name);
        assert_eq!(ShipmentStatusCode::from_wire(name), Some(code));
    }
    assert_eq!(ShipmentStatusCode::from_wire("pretransit"), None);
}

#[test]
fn reference_types() {
    let names = [
        (ShipmentDetailReferenceType::CustomerReference, "customer-reference"),
        (ShipmentDetailReferenceType::CustomerConfirmationNumber, "customer-confirmation-number"),
        (ShipmentDetailReferenceType::LocalTrackingNumber, "local-tracking-number"),
        (ShipmentDetailReferenceType::EcommerceNumber, "ecommerce-number"),
        (ShipmentDetailReferenceType::Housebill, "housebill"),
        (ShipmentDetailReferenceType::Masterbill, "masterbill"),
        (ShipmentDetailReferenceType::ContainerNumber, "container-number"),
        (ShipmentDetailReferenceType::ShipmentId, "shipment-id"),
        (ShipmentDetailReferenceType::DomesticConsignmentId, "domestic-consignment-id"),
        (ShipmentDetailReferenceType::Reference, "reference"),
    ];
    for (kind, name) in names {
        assert_eq!(kind.wire_name(), name);
        assert_eq!(ShipmentDetailReferenceType::from_wire(name), Some(kind));
    }
    assert_eq!(ShipmentDetailReferenceType::from_wire("house-bill"), None);
}

#[test]
fn devisions() {
    assert_eq!(Devisions::PostAndParcel.wire_name(), "postAndParcel");
    assert_eq!(Devisions::EcomSolutions.wire_name(), "ecomSolutions");
    assert_eq!(Devisions::Express.wire_name(), "express");
    assert_eq!(Devisions::from_wire("postAndParcel"), Some(Devisions::PostAndParcel));
    assert_eq!(Devisions::from_wire("ecomSolutions"), Some(Devisions::EcomSolutions));
    assert_eq!(Devisions::from_wire("express"), Some(Devisions::Express));
    assert_eq!(Devisions::from_wire("PostAndParcel"), None);
}

#[test]
fn country_codes_are_two_upper_case_letters() {
    assert_eq!(CountryCode::De.wire_name(), "DE");
    assert_eq!(CountryCode::Ad.wire_name(), "AD");
    assert_eq!(CountryCode::Zw.wire_name(), "ZW");
    assert_eq!(CountryCode::Us.code(), ('U', 'S'));
    assert_eq!(CountryCode::from_wire("DE"), Some(CountryCode::De));
    assert_eq!(CountryCode::from_wire("GB"), Some(CountryCode::Gb));
    assert_eq!(CountryCode::from_letters('N', 'L'), Some(CountryCode::Nl));
    assert_eq!(CountryCode::decode(&text("FR")), Some(CountryCode::Fr));
}

#[test]
fn country_codes_reject_other_texts() {
    assert_eq!(CountryCode::from_wire("de"), None);
    assert_eq!(CountryCode::from_wire("De"), None);
    assert_eq!(CountryCode::from_wire("D"), None);
    assert_eq!(CountryCode::from_wire("DEU"), None);
    assert_eq!(CountryCode::from_wire(""), None);
    assert_eq!(CountryCode::from_wire("XX"), None);
    assert_eq!(CountryCode::from_wire("ÄÖ"), None);
    assert_eq!(CountryCode::from_letters('A', 'A'), None);
    assert_eq!(CountryCode::decode(&Json::Null), None);
}

#[test]
fn every_pair_of_letters_names_at_most_its_own_country() {
    let mut count = 0;
    for first in 'A'..='Z' {
        for second in 'A'..='Z' {
            if let Some(country) = CountryCode::from_letters(first, second) {
                assert_eq!(country.code(), (first, second));
                let name: String = [first, second].iter().collect();
                assert_eq!(country.wire_name(), name);
                assert_eq!(CountryCode::from_wire(&name), Some(country));
                count += 1;
            }
        }
    }
    assert_eq!(count, 249);
}

#[test]
fn language_codes_are_two_lower_case_letters() {
    assert_eq!(LanguageCode::De.wire_name(), "de");
    assert_eq!(LanguageCode::En.wire_name(), "en");
    assert_eq!(LanguageCode::Zu.wire_name(), "zu");
    assert_eq!(LanguageCode::from_wire("de"), Some(LanguageCode::De));
    assert_eq!(LanguageCode::from_wire("DE"), None);
    assert_eq!(LanguageCode::from_wire("xx"), None);
    assert_eq!(LanguageCode::from_wire("deu"), None);
    let mut count = 0;
    for first in 'a'..='z' {
        for second in 'a'..='z' {
            if let Some(language) = LanguageCode::from_letters(first, second) {
                assert_eq!(language.code(), (first, second));
                count += 1;
            }
        }
    }
    assert_eq!(count, 142);
}
