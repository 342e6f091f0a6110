use graphann::query::{format_duration, push_filter, urlencode};
use graphann::time::TimeSpan;
use graphann::types::{JobStatus, ListJobsFilter};

#[test]
fn one_hour() {
    assert_eq!(format_duration(TimeSpan::from_secs(3600)), "1h0m0s");
}

#[test]
fn twenty_four_hours() {
    assert_eq!(format_duration(TimeSpan::from_secs(24 * 3600)), "24h0m0s");
}

#[test]
fn thirty_minutes() {
    assert_eq!(format_duration(TimeSpan::from_secs(30 * 60)), "30m0s");
}

#[test]
fn five_minutes() {
    assert_eq!(format_duration(TimeSpan::from_secs(5 * 60)), "5m0s");
}

#[test]
fn five_hundred_ms() {
    assert_eq!(format_duration(TimeSpan::from_millis(500)), "500ms");
}

#[test]
fn zero() {
    assert_eq!(format_duration(TimeSpan::zero()), "0s");
}

#[test]
fn format_duration_sub_second_and_mixed_units() {
    assert_eq!(format_duration(TimeSpan::from_nanos(1)), "1ns");
    assert_eq!(format_duration(TimeSpan::from_nanos(1_500)), "1500ns");
    assert_eq!(format_duration(TimeSpan::from_micros(7)), "7µs");
    assert_eq!(format_duration(TimeSpan::from_millis(1_500)), "1500ms");
    assert_eq!(format_duration(TimeSpan::from_secs(42)), "42s");
    assert_eq!(format_duration(TimeSpan::from_secs(3_661)), "1h1m1s");
    assert_eq!(format_duration(TimeSpan::from_secs(61)), "1m1s");
    assert_eq!(format_duration(TimeSpan::new(1, 1)), "1000000001ns");
}

#[test]
fn urlencode_leaves_unreserved_alone() {
    assert_eq!(urlencode("AZaz09-_.~"), "AZaz09-_.~");
    assert_eq!(urlencode(""), "");
}

#[test]
fn urlencode_escapes_everything_else() {
    assert_eq!(urlencode("a b/c"), "a%20b%2Fc");
    assert_eq!(urlencode("%&=?"), "%25%26%3D%3F");
    assert_eq!(urlencode("é"), "%C3%A9");
    assert_eq!(urlencode("\u{1F600}"), "%F0%9F%98%80");
}

#[test]
fn push_filter_joins_present_fields_in_order() {
    let mut out = String::new();
    push_filter(&mut out, &ListJobsFilter::default());
    assert_eq!(out, "");

    let mut out = String::new();
    push_filter(&mut out, &ListJobsFilter { limit: Some(50), ..Default::default() });
    assert_eq!(out, "limit=50");

    let mut out = String::from("x?");
    push_filter(
        &mut out,
        &ListJobsFilter {
            status: Some(JobStatus::Running),
            cursor: Some("c1".to_string()),
            limit: Some(0),
        },
    );
    assert_eq!(out, "x?status=running&cursor=c1&limit=0");

    let mut out = String::new();
    push_filter(
        &mut out,
        &ListJobsFilter { status: Some(JobStatus::Failed), cursor: Some("z".into()), limit: None },
    );
    assert_eq!(out, "status=failed&cursor=z");
}

#[test]
fn push_filter_names_every_status() {
    for (s, name) in [
        (JobStatus::Queued, "queued"),
        (JobStatus::Running, "running"),
        (JobStatus::Completed, "completed"),
        (JobStatus::Failed, "failed"),
    ] {
        let mut out = String::new();
        push_filter(&mut out, &ListJobsFilter { status: Some(s), ..Default::default() });
        assert_eq!(out, format!("status={name}"));
    }
}
