#![allow(unused_imports, dead_code, deprecated)]

use gitlab::api::{ignore, raw};
use gitlab::common::{Method, Timestamp};
use gitlab::test::client::{ExpectedUrl, SingleTestClient};
use gitlab::api::projects::repository::commits::CommitStatuses;

fn ts(y: i32, mo: u32, d: u32, h: u32, mi: u32, s: u32, ms: u32) -> Timestamp {
    let dt = chrono::NaiveDate::from_ymd_opt(y, mo, d)
        .unwrap()
        .and_hms_milli_opt(h, mi, s, ms)
        .unwrap()
        .and_utc();
    Timestamp::from_unix(dt.timestamp(), dt.timestamp_subsec_nanos()).unwrap()
}

#[test]
fn statuses_project_and_commit_are_necessary() {
    let err = CommitStatuses::builder().build().unwrap_err();
    assert_eq!(err.message(), "`project` must be initialized");
}

#[test]
fn statuses_project_is_necessary() {
    let err = CommitStatuses::builder()
        .commit("master")
        .build()
        .unwrap_err();
    assert_eq!(err.message(), "`project` must be initialized");
}

#[test]
fn statuses_commit_is_necessary() {
    let err = CommitStatuses::builder().project(1).build().unwrap_err();
    assert_eq!(err.message(), "`commit` must be initialized");
}

#[test]
fn statuses_project_and_commit_are_sufficient() {
    CommitStatuses::builder()
        .project(1)
        .commit("master")
        .build()
        .unwrap();
}
