use google_maps::directions::{Location, Request as DirectionsRequest};
use google_maps::elevation::{ElevationError, Locations, Request};
use google_maps::lifecycle::Stage;
use google_maps::error::ClientError;
use google_maps::latlng::LatLng;
use google_maps::places::{Region, Request as PlaceDetailsRequest};

fn denver() -> LatLng {
    LatLng::new(397_391_536, -1_049_847_034).unwrap()
}

#[test]
fn build_before_validate_fails() {
    let mut r = Request::new(String::from("KEY"));
    r.positional_request(Locations::LatLngs(vec![denver()]));
    assert_eq!(r.build(), Err(ElevationError::RequestNotValidated));
    assert_eq!(r.take_query(), Err(ElevationError::QueryNotBuilt));
}

#[test]
fn build_twice_fails_the_second_time() {
    let mut r = Request::new(String::from("KEY"));
    r.positional_request(Locations::LatLngs(vec![denver()]));
    assert_eq!(r.validate(), Ok(()));
    assert_eq!(r.build(), Ok(()));
    assert_eq!(r.build(), Err(ElevationError::RequestNotValidated));
    assert!(r.take_query().is_ok());
}

#[test]
fn positional_query_text() {
    let mut r = Request::new(String::from("KEY"));
    r.positional_request(Locations::LatLngs(vec![denver()]));
    r.validate().unwrap();
    r.build().unwrap();
    assert_eq!(r.take_query().unwrap(), "key=KEY&locations=39.7391536,-104.9847034");
    assert_eq!(
        r.url().unwrap(),
        "https://maps.googleapis.com/maps/api/elevation/json?key=KEY&locations=39.7391536,-104.9847034"
    );
}

#[test]
fn several_locations_are_joined_by_bars() {
    let mut r = Request::new(String::from("K"));
    let a = LatLng::new(0, 5).unwrap();
    let b = LatLng::new(-5, 1_800_000_000).unwrap();
    r.positional_request(Locations::LatLngs(vec![a, b]));
    r.validate().unwrap();
    r.build().unwrap();
    assert_eq!(
        r.take_query().unwrap(),
        "key=K&locations=0.0000000,0.0000005|-0.0000005,180.0000000"
    );
}

#[test]
fn sampled_path_query_text() {
    let mut r = Request::new(String::from("K"));
    r.sampled_path_request(Locations::Polyline(String::from("gfo}EtohhU")), 12);
    r.validate().unwrap();
    r.build().unwrap();
    assert_eq!(r.take_query().unwrap(), "key=K&path=enc:gfo}EtohhU&samples=12");
}

#[test]
fn validate_rejects_missing_and_mixed_parameters() {
    let mut empty = Request::new(String::from("K"));
    assert_eq!(empty.validate(), Err(ElevationError::EitherPositionalOrSampledPath));
    let mut both = Request::new(String::from("K"));
    both.positional_request(Locations::Polyline(String::from("abc")));
    both.sampled_path_request(Locations::Polyline(String::from("abc")), 3);
    assert_eq!(both.validate(), Err(ElevationError::EitherPositionalOrSampledPath));
}

#[test]
fn validate_is_idempotent() {
    let mut r = Request::new(String::from("K"));
    r.positional_request(Locations::Polyline(String::from("abc")));
    assert_eq!(r.validate(), Ok(()));
    assert_eq!(r.validate(), Ok(()));
    r.build().unwrap();
    assert_eq!(r.validate(), Ok(()));
    assert!(r.take_query().is_ok());
}

#[test]
fn same_parameters_build_identical_queries() {
    let make = || {
        let mut r = Request::new(String::from("K"));
        r.positional_request(Locations::LatLngs(vec![denver(), LatLng::new(1, 2).unwrap()]));
        r.validate().unwrap();
        r.build().unwrap();
        r.take_query().unwrap()
    };
    assert_eq!(make(), make());
}

#[test]
fn out_of_range_coordinates_are_refused() {
    assert!(LatLng::new(900_000_001, 0).is_none());
    assert!(LatLng::new(0, -1_800_000_001).is_none());
    assert!(LatLng::new(-900_000_000, 1_800_000_000).is_some());
    assert_eq!(LatLng::new(-1, 0).unwrap().to_query_text(), "-0.0000001,0.0000000");
}

#[test]
fn stages_follow_the_lifecycle() {
    let mut r = PlaceDetailsRequest::new(String::from("K"), String::from("ChIJ"));
    assert_eq!(r.take_query(), Err(ClientError::QueryNotBuilt));
    assert_eq!(r.build(), Err(ClientError::RequestNotValidated));
    r.validate().unwrap();
    r.build().unwrap();
    assert_eq!(r.take_query().unwrap(), "key=K&place_id=ChIJ");
    assert_eq!(r.take_query().unwrap(), "key=K&place_id=ChIJ");
    let _ = Stage::Built;
}

#[test]
fn region_is_added_to_the_query() {
    let mut r = PlaceDetailsRequest::new(String::from("K"), String::from("P1"));
    r.with_region(Region::new(String::from("uk")));
    r.validate().unwrap();
    r.build().unwrap();
    assert_eq!(
        r.url().unwrap(),
        "https://maps.googleapis.com/maps/api/place/details/json?key=K&place_id=P1&region=uk"
    );
}

#[test]
fn empty_place_id_fails_validation() {
    let mut r = PlaceDetailsRequest::new(String::from("K"), String::new());
    assert_eq!(r.validate(), Err(ClientError::Validation));
    assert_eq!(r.build(), Err(ClientError::RequestNotValidated));
}

#[test]
fn directions_locations_are_percent_encoded() {
    let origin = Location::Address(String::from("240 McLeod St, Ottawa"));
    let destination = Location::LatLng(LatLng::new(454_035_090, -756_189_040).unwrap());
    assert_eq!(origin.to_query_value(), "240%20McLeod%20St%2C%20Ottawa");
    assert_eq!(destination.to_query_value(), "45%2E4035090%2C%2D75%2E6189040");
    assert_eq!(Location::PlaceId(String::from("abc")).to_query_value(), "place%5Fid%3Aabc");
    let mut r = DirectionsRequest::new(String::from("K"), origin, destination);
    assert_eq!(r.url(), Err(ClientError::QueryNotBuilt));
    r.validate().unwrap();
    r.build().unwrap();
    assert_eq!(
        r.url().unwrap(),
        "https://maps.googleapis.com/maps/api/directions/json?key=K&origin=240%20McLeod%20St%2C%20Ottawa&destination=45%2E4035090%2C%2D75%2E6189040"
    );
}
