use chrono::{DateTime, TimeDelta, Utc};
use mendimaru::diagnostics::GuestClockProbe;
use mendimaru::environment::{clock_skew, guest_clock_from_response, parse_http_date};

fn instant_of(time: DateTime<Utc>) -> (i64, u32) {
    (time.timestamp(), time.timestamp_subsec_nanos())
}

#[test]
fn parses_http_dates_from_the_guest_server() {
    let parsed = parse_http_date("Sun, 06 Nov 1994 08:49:37 GMT").expect("HTTP date parses");
    let expected = DateTime::parse_from_rfc3339("1994-11-06T08:49:37+00:00").expect("reference");
    assert_eq!(parsed, (expected.timestamp(), 0));
    assert_eq!(
        DateTime::from_timestamp(parsed.0, parsed.1).expect("in range").to_rfc3339(),
        "1994-11-06T08:49:37+00:00"
    );
    assert!(parse_http_date("not-a-date").is_none());
    assert!(parse_http_date("").is_none());
}

#[test]
fn guest_clock_skew_uses_the_host_midpoint() {
    let requested_at = DateTime::parse_from_rfc3339("2026-09-01T04:48:18Z")
        .expect("request time")
        .with_timezone(&Utc);
    let responded_at = requested_at + TimeDelta::milliseconds(200);
    let header = "Sun, 06 Nov 1994 08:49:37 GMT";

    let guest_ahead =
        guest_clock_from_response(Some(header), instant_of(requested_at), instant_of(responded_at));
    let guest = DateTime::parse_from_rfc3339("1994-11-06T08:49:37+00:00")
        .expect("guest time")
        .with_timezone(&Utc);
    assert_eq!(
        guest_ahead,
        GuestClockProbe::Measured((guest - (requested_at + TimeDelta::milliseconds(100))).num_seconds())
    );

    let missing = guest_clock_from_response(None, instant_of(requested_at), instant_of(responded_at));
    assert_eq!(missing, GuestClockProbe::Unmeasurable);

    assert_eq!(
        guest_clock_from_response(Some("invalid"), instant_of(requested_at), instant_of(responded_at)),
        GuestClockProbe::Unmeasurable
    );
}

#[test]
fn skew_rounds_toward_zero_in_both_directions() {
    // Request at 100.0 s, response at 100.5 s: the midpoint is 100.25 s.
    assert_eq!(clock_skew((105, 0), (100, 0), (100, 500_000_000)), 4);
    assert_eq!(clock_skew((96, 0), (100, 0), (100, 500_000_000)), -4);
    assert_eq!(clock_skew((100, 0), (100, 0), (100, 500_000_000)), 0);
    // Half of an odd number of milliseconds rounds down: 3 ms gives a 1 ms midpoint offset.
    assert_eq!(clock_skew((101, 1_000_000), (100, 0), (100, 3_000_000)), 1);
}

#[test]
fn http_dates_are_trimmed_and_accept_a_numeric_zone() {
    assert_eq!(
        parse_http_date("  Sun, 06 Nov 1994 08:49:37 GMT \n"),
        parse_http_date("Sun, 06 Nov 1994 08:49:37 +0000")
    );
    assert_eq!(parse_http_date("Sun, 06 Nov 1994 09:49:37 +0100"), Some((784111777, 0)));
}
