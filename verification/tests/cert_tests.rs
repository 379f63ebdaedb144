use chrono::{DateTime, Datelike, Duration, NaiveDate, Timelike, Utc};
use cycle_certs::cert::{CycleCert, EXPIRATION_DAYS};
use cycle_certs::time::{SignedDuration, Timestamp};

const DAY: i128 = 86_400_000_000_000;

fn instant(at: DateTime<Utc>) -> Timestamp {
    Timestamp::new(at.timestamp(), at.timestamp_subsec_nanos())
}

fn cert_of(domains: &[&str], generated: Timestamp) -> CycleCert {
    CycleCert::new(
        domains.iter().map(|d| d.to_string()).collect(),
        String::from("CONTENTS OF CERTIFICATE HERE"),
        "Key to the castle".into(),
        generated,
    )
    .unwrap()
}

#[test]
fn test_calculate_expiration_time() {
    let generated_prior_days = 2;
    let days_before_refresh = 14;
    let now = Utc::now();
    let start_of_day = NaiveDate::from_ymd_opt(now.year(), now.month(), now.day())
        .unwrap()
        .and_hms_opt(0, 0, 0)
        .unwrap();

    let cert = CycleCert::new(
        vec!["cycle.io".to_string(), "petrichor.io".to_string()],
        String::from("CONTENTS OF CERTIFICATE HERE"),
        "Key to the castle".into(),
        instant(
            DateTime::<Utc>::from_naive_utc_and_offset(start_of_day, Utc)
                - Duration::days(generated_prior_days),
        ),
    )
    .unwrap();

    let dur_from_now = cert.duration_until_refetch(days_before_refresh);

    let should_be_num_days = EXPIRATION_DAYS - days_before_refresh - generated_prior_days;
    assert_eq!(
        dur_from_now.num_days(),
        if now.hour() > 0 {
            // not a whole day if we're not at exactly midnight
            (should_be_num_days - 1) as i128
        } else {
            should_be_num_days as i128
        }
    );
}

#[test]
fn a_single_domain_names_the_bundle() {
    let cert = cert_of(&["cycle.io"], Timestamp::new(0, 0));
    assert_eq!(cert.get_certificate_full_filepath("/tmp/out", None), "/tmp/out/cycle_io.ca-bundle");
    assert_eq!(cert.get_private_key_full_filepath("/tmp/out", None), "/tmp/out/cycle_io.key");
}

#[test]
fn several_domains_are_joined_and_sanitized() {
    let cert = cert_of(&["cycle.io", "petrichor.io"], Timestamp::new(0, 0));
    assert_eq!(
        cert.get_certificate_full_filepath("certs", None),
        "certs/cycle_io_petrichor_io.ca-bundle"
    );
    assert_eq!(cert.get_private_key_full_filepath("certs", None), "certs/cycle_io_petrichor_io.key");
}

#[test]
fn a_derived_stem_holds_no_dot() {
    let cert = cert_of(&["a.b.c.example.co.uk", "..", "x"], Timestamp::new(0, 0));
    let path = cert.get_certificate_full_filepath("", None);
    assert_eq!(path, "/a_b_c_example_co_uk____x.ca-bundle");
    let stem = path.strip_prefix("/").unwrap().strip_suffix(".ca-bundle").unwrap();
    assert!(!stem.contains('.'));
}

#[test]
fn an_override_is_used_as_it_stands() {
    let cert = cert_of(&["cycle.io", "petrichor.io"], Timestamp::new(0, 0));
    assert_eq!(cert.get_certificate_full_filepath("./certs", Some("certs")), "./certs/certs.ca-bundle");
    assert_eq!(cert.get_private_key_full_filepath("./certs", Some("certs")), "./certs/certs.key");
    assert_eq!(
        cert.get_certificate_full_filepath(".", Some("my.site")),
        "./my.site.ca-bundle"
    );
}

#[test]
fn the_two_paths_differ_in_the_extension_only() {
    let cert = cert_of(&["cycle.io"], Timestamp::new(0, 0));
    for name in [None, Some("site"), Some("")] {
        let bundle = cert.get_certificate_full_filepath("out", name);
        let key = cert.get_private_key_full_filepath("out", name);
        assert_ne!(bundle, key);
        assert_eq!(bundle.strip_suffix(".ca-bundle"), key.strip_suffix(".key"));
    }
}

#[test]
fn non_ascii_domains_keep_their_characters() {
    let cert = cert_of(&["bücher.example"], Timestamp::new(0, 0));
    assert_eq!(cert.get_private_key_full_filepath("d", None), "d/bücher_example.key");
}

#[test]
fn a_certificate_needs_a_domain_and_a_bundle() {
    let t = Timestamp::new(0, 0);
    assert!(CycleCert::new(vec![], "B".to_string(), "K".to_string(), t).is_none());
    assert!(CycleCert::new(vec!["a.io".to_string()], String::new(), "K".to_string(), t).is_none());
    let cert = CycleCert::new(vec!["a.io".to_string()], "B".to_string(), String::new(), t).unwrap();
    assert_eq!(cert.domains(), &vec!["a.io".to_string()]);
    assert_eq!(cert.bundle(), "B");
    assert_eq!(cert.private_key(), "");
    assert_eq!(cert.events().generated, t);
}

#[test]
fn the_wait_is_the_validity_less_the_lead_less_the_age() {
    let cert = cert_of(&["cycle.io"], Timestamp::new(1_000_000, 0));
    let now = Timestamp::new(1_000_000 + 2 * 86_400, 0);
    let wait = cert.duration_until_refetch_at(14, now);
    assert_eq!(wait, SignedDuration::from_nanos(74 * DAY));
    assert_eq!(wait.num_days(), 74);
}

#[test]
fn the_wait_counts_nanoseconds() {
    let cert = cert_of(&["cycle.io"], Timestamp::new(10, 500));
    let wait = cert.duration_until_refetch_at(90, Timestamp::new(7, 999_999_999));
    assert_eq!(wait.as_nanos(), 2_000_000_501);
    let wait = cert.duration_until_refetch_at(90, Timestamp::new(10, 501));
    assert_eq!(wait.as_nanos(), -1);
}

#[test]
fn a_longer_lead_gives_a_shorter_wait() {
    let cert = cert_of(&["cycle.io"], Timestamp::new(1_700_000_000, 123));
    let now = Timestamp::new(1_700_500_000, 7);
    let mut last = cert.duration_until_refetch_at(-3, now).as_nanos();
    for lead in -2..120 {
        let wait = cert.duration_until_refetch_at(lead, now).as_nanos();
        assert_eq!(last - wait, DAY);
        last = wait;
    }
}

#[test]
fn an_overdue_certificate_has_a_wait_that_is_not_positive() {
    let cert = cert_of(&["cycle.io"], Timestamp::new(0, 0));
    let at_target = Timestamp::new(76 * 86_400, 0);
    assert_eq!(cert.duration_until_refetch_at(14, at_target).as_nanos(), 0);
    let later = Timestamp::new(100 * 86_400, 0);
    let wait = cert.duration_until_refetch_at(14, later);
    assert_eq!(wait.as_nanos(), -24 * DAY);
    assert_eq!(wait.num_days(), -24);
    assert!(wait.to_pause().is_zero());
    let huge_lead = cert.duration_until_refetch_at(1_000, Timestamp::new(0, 0));
    assert_eq!(huge_lead.as_nanos(), -910 * DAY);
}

#[test]
fn a_certificate_from_the_future_is_not_masked() {
    let cert = cert_of(&["cycle.io"], Timestamp::new(10 * 86_400, 0));
    let wait = cert.duration_until_refetch_at(14, Timestamp::new(0, 0));
    assert_eq!(wait.num_days(), 86);
}

#[test]
fn extreme_inputs_do_not_overflow() {
    let cert = cert_of(&["cycle.io"], Timestamp::new(i64::MAX, u32::MAX));
    let wait = cert.duration_until_refetch_at(i64::MIN, Timestamp::new(i64::MIN, 0));
    let expected = (i64::MAX as i128 - i64::MIN as i128) * 1_000_000_000
        + u32::MAX as i128
        + (90 - i64::MIN as i128) * DAY;
    assert_eq!(wait.as_nanos(), expected);
    let cert = cert_of(&["cycle.io"], Timestamp::new(i64::MIN, 0));
    let wait = cert.duration_until_refetch_at(i64::MAX, Timestamp::new(i64::MAX, u32::MAX));
    let expected = (i64::MIN as i128 - i64::MAX as i128) * 1_000_000_000 - u32::MAX as i128
        + (90 - i64::MAX as i128) * DAY;
    assert_eq!(wait.as_nanos(), expected);
}

#[test]
fn the_clock_is_read_for_the_wait() {
    let before = instant(Utc::now());
    let cert = cert_of(&["cycle.io"], before);
    let wait = cert.duration_until_refetch(0).as_nanos();
    let after = instant(Utc::now());
    assert!(wait <= 90 * DAY);
    assert!(wait >= cert.duration_until_refetch_at(0, after).as_nanos());
}

#[test]
fn persisting_writes_the_bundle_and_then_the_key() {
    let cert = cert_of(&["cycle.io", "petrichor.io"], Timestamp::new(0, 0));
    let writes = cert.disk_writes("/var/certs", None);
    assert_eq!(writes.directory, "/var/certs");
    assert_eq!(writes.certificate.path, "/var/certs/cycle_io_petrichor_io.ca-bundle");
    assert_eq!(writes.certificate.contents, "CONTENTS OF CERTIFICATE HERE");
    assert_eq!(writes.key.path, "/var/certs/cycle_io_petrichor_io.key");
    assert_eq!(writes.key.contents, "Key to the castle");
}

#[test]
fn a_failed_write_is_reported_without_the_key() {
    let cert = cert_of(&["cycle.io"], Timestamp::new(0, 0));
    let message = cert.disk_writes("out", Some("site")).failure_message();
    assert_eq!(
        message,
        "Failed to write files. \nCertificate: out/site.ca-bundle\nKey: out/site.key"
    );
    assert!(!message.contains("Key to the castle"));
}
