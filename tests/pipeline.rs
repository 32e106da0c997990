use google_maps::classify::{classify, Classified, Envelope, Failure, ServiceStatus, TransportOutcome};
use google_maps::directions::Distance;
use google_maps::error::ClientError;
use google_maps::geocoding::{GeocodingError, Status};
use google_maps::rate_limit::{Api, Bucket, RateLimiter};
use google_maps::retry::{Retry, Schedule, Step};

fn response(http_status: u16, body: Envelope) -> TransportOutcome {
    TransportOutcome::Response { http_status, body }
}

#[test]
fn classifier_verdicts() {
    let ok = Envelope::Parsed(ServiceStatus::Okay);
    assert_eq!(classify(response(500, ok)), Classified::Transient(Failure::Http(500)));
    assert_eq!(classify(response(404, ok)), Classified::Permanent(Failure::Http(404)));
    assert_eq!(classify(response(200, ok)), Classified::Success);
    assert_eq!(
        classify(response(200, Envelope::Parsed(ServiceStatus::UnknownError))),
        Classified::Transient(Failure::Service(ServiceStatus::UnknownError))
    );
    assert_eq!(
        classify(response(200, Envelope::Parsed(ServiceStatus::RequestDenied))),
        Classified::Permanent(Failure::Service(ServiceStatus::RequestDenied))
    );
    assert_eq!(classify(TransportOutcome::Failed), Classified::Transient(Failure::Transport));
    assert_eq!(classify(response(429, ok)), Classified::Transient(Failure::Http(429)));
    assert_eq!(classify(response(200, Envelope::Malformed)), Classified::Permanent(Failure::Malformed));
    assert_eq!(classify(response(599, ok)), Classified::Transient(Failure::Http(599)));
    assert_eq!(classify(response(600, ok)), Classified::Permanent(Failure::Http(600)));
}

#[test]
fn burst_is_bounded_by_capacity() {
    let mut b = Bucket::new(3, 2, 1_000);
    let granted = (0..10).filter(|_| b.try_acquire(1_000)).count();
    assert_eq!(granted, 3);
    assert_eq!(b.wait_ms(), 500);
    assert!(!b.try_acquire(1_499));
    assert!(b.try_acquire(1_500));
}

#[test]
fn refill_is_capped_at_capacity() {
    let mut b = Bucket::new(2, 1, 0);
    assert!(b.try_acquire(0));
    assert!(b.try_acquire(0));
    b.refill(1_000_000);
    assert_eq!(b.available, 2_000);
    assert_eq!(b.last_ms, 1_000_000);
}

#[test]
fn limiter_takes_from_own_and_shared_buckets() {
    let mut l = RateLimiter::new();
    l.with_rate(Api::All, 2, 1, 0);
    l.with_rate(Api::Places, 5, 1, 0);
    assert_eq!(l.try_acquire(Api::Places, 0), Ok(()));
    assert_eq!(l.try_acquire(Api::Geocoding, 0), Ok(()));
    assert_eq!(l.try_acquire(Api::Places, 0), Err(1_000));
    assert_eq!(l.try_acquire(Api::Places, 1_000), Ok(()));
}

#[test]
fn limiter_without_limits_always_grants() {
    let mut l = RateLimiter::new();
    for _ in 0..100 {
        assert_eq!(l.try_acquire(Api::Directions, 0), Ok(()));
    }
}

#[test]
fn unrefilled_bucket_waits_forever() {
    let mut b = Bucket::new(1, 0, 0);
    assert!(b.try_acquire(0));
    assert_eq!(b.wait_ms(), u64::MAX);
}

fn schedule(jitter_mille: u32, max_elapsed_ms: u64) -> Schedule {
    Schedule {
        base_ms: 500,
        multiplier_mille: 1_500,
        max_interval_ms: 60_000,
        max_elapsed_ms,
        jitter_mille,
    }
}

#[test]
fn succeeds_at_third_attempt_after_growing_waits() {
    let mut r = Retry::new(schedule(0, 900_000), None);
    let transient = Classified::Transient(Failure::Http(503));
    assert_eq!(r.on_outcome(transient, None, 7), Step::Wait(500));
    assert_eq!(r.on_outcome(transient, None, 9), Step::Wait(750));
    assert_eq!(r.on_outcome(Classified::Success, None, 1), Step::Succeeded);
    assert_eq!(r.attempts, 3);
    assert_eq!(r.elapsed_ms, 1_250);
}

#[test]
fn permanent_failure_stops_at_first_attempt() {
    let mut r = Retry::new(schedule(500, 900_000), None);
    let step = r.on_outcome(Classified::Permanent(Failure::Http(404)), None, 3);
    assert_eq!(step, Step::Failed(ClientError::RemoteRejection(Failure::Http(404))));
    assert_eq!(r.attempts, 1);
    assert_eq!(r.elapsed_ms, 0);
    let mut m = Retry::new(schedule(0, 10), None);
    assert_eq!(m.on_outcome(Classified::Permanent(Failure::Malformed), None, 0), Step::Failed(ClientError::MalformedResponse));
}

#[test]
fn budget_smaller_than_three_attempts_is_exhausted() {
    let mut r = Retry::new(schedule(0, 1_000), None);
    let f = Failure::Service(ServiceStatus::UnknownError);
    assert_eq!(r.on_outcome(Classified::Transient(f), None, 0), Step::Wait(500));
    assert_eq!(r.on_outcome(Classified::Transient(f), None, 0), Step::Failed(ClientError::RetryBudgetExhausted(f)));
    assert_eq!(r.attempts, 2);
}

#[test]
fn retry_after_hint_is_honoured() {
    let mut r = Retry::new(schedule(0, 10_000), None);
    let t = Classified::Transient(Failure::Http(429));
    assert_eq!(r.on_outcome(t, Some(2_000), 0), Step::Wait(2_000));
    assert_eq!(r.on_outcome(t, Some(9_000), 0), Step::Failed(ClientError::RetryBudgetExhausted(Failure::Http(429))));
}

#[test]
fn deadline_cancels_the_call() {
    let mut r = Retry::new(schedule(0, 10_000), Some(600));
    let t = Classified::Transient(Failure::Transport);
    assert_eq!(r.on_outcome(t, None, 0), Step::Wait(500));
    assert_eq!(r.on_outcome(t, None, 0), Step::Failed(ClientError::CancelledOrTimedOut));
}

#[test]
fn intervals_grow_and_are_capped() {
    let s = Schedule { base_ms: 1_000, multiplier_mille: 2_000, max_interval_ms: 5_000, max_elapsed_ms: 0, jitter_mille: 500 };
    assert_eq!(s.interval(0, 1_000), 1_000);
    assert_eq!(s.interval(1, 1_000), 2_000);
    assert_eq!(s.interval(2, 1_000), 4_000);
    assert_eq!(s.interval(3, 1_000), 5_000);
    assert_eq!(s.interval(40, 2_000), 5_000);
    assert_eq!(s.interval(1, 500), 1_000);
    assert_eq!(s.interval(5, 0), 0);
    assert_eq!(s.jitter(0), 500);
    assert_eq!(s.jitter(1_000), 1_500);
    assert_eq!(s.jitter(1_001), 500);
}

#[test]
fn transient_errors_are_marked() {
    assert!(ClientError::Transport.is_transient());
    assert!(!ClientError::Validation.is_transient());
    assert!(!ClientError::RemoteRejection(Failure::Http(400)).is_transient());
}

#[test]
fn geocoding_messages() {
    assert_eq!(
        GeocodingError::GoogleMapsGeocodingServer(Status::UnknownError, None).message(),
        "Google Maps Geocoding API server: Unknown error."
    );
    assert_eq!(
        GeocodingError::GoogleMapsGeocodingServer(Status::Okay, Some(String::from("custom"))).message(),
        "Google Maps Geocoding API server: custom"
    );
    assert!(GeocodingError::QueryNotBuilt.message().contains("Ensure the build() method is called before run()."));
    let json = serde_json::from_str::<u32>("x").unwrap_err();
    let e = GeocodingError::from(json);
    assert!(e.message().starts_with("Google Maps Geocoding API client in the Serde JSON library: "));
    assert!(e.message().len() > "Google Maps Geocoding API client in the Serde JSON library: ".len());
}

#[test]
fn distance_keeps_its_fields() {
    let d = Distance::new(String::from("1.2 km"), 1_200);
    assert_eq!(d.text(), "1.2 km");
    assert_eq!(d.value(), 1_200);
}
