use statime::common::{ClockAccuracy, ClockIdentity, ClockQuality, DefaultDS, TimePropertiesDS};
use statime::metrics::{
    append_escaped, dec_i128, dec_u128, format_default_ds, format_metric,
    format_time_properties_ds, Measurement, MetricType, Unit,
};

fn text(bytes: Vec<u8>) -> String {
    String::from_utf8(bytes).unwrap()
}

#[test]
fn decimal_rendering() {
    assert_eq!(text(dec_u128(0)), "0");
    assert_eq!(text(dec_u128(7)), "7");
    assert_eq!(text(dec_u128(12345)), "12345");
    assert_eq!(text(dec_u128(u128::MAX)), u128::MAX.to_string());
    assert_eq!(text(dec_i128(0)), "0");
    assert_eq!(text(dec_i128(-37)), "-37");
    assert_eq!(text(dec_i128(i128::MIN)), i128::MIN.to_string());
}

#[test]
fn label_escaping() {
    let mut out = Vec::new();
    append_escaped(&mut out, b"a\\b\"c\nd");
    assert_eq!(text(out), "a\\\\b\\\"c\\nd");
}

#[test]
fn metric_with_unit_and_labels() {
    let mut out = Vec::new();
    format_metric(
        &mut out,
        "uptime",
        "The time that statime has been running",
        MetricType::Gauge,
        Some(Unit::Seconds),
        vec![Measurement {
            labels: vec![
                (b"version".to_vec(), b"1.0".to_vec()),
                (b"build_commit".to_vec(), b"deadbeef".to_vec()),
            ],
            value: b"12.5".to_vec(),
        }],
    );
    let expected = "# HELP statime_uptime_seconds The time that statime has been running.\n# TYPE statime_uptime_seconds gauge\n# UNIT statime_uptime_seconds seconds\nstatime_uptime_seconds{version=\"1.0\",build_commit=\"deadbeef\"} 12.5\n";
    assert_eq!(text(out), expected);
}

#[test]
fn metric_without_labels() {
    let mut out = Vec::new();
    format_metric(
        &mut out,
        "current_utc_offset",
        "Current offset from UTC",
        MetricType::Gauge,
        None,
        vec![Measurement {
            labels: vec![],
            value: b"37".to_vec(),
        }],
    );
    let expected = "# HELP statime_current_utc_offset Current offset from UTC.\n# TYPE statime_current_utc_offset gauge\nstatime_current_utc_offset 37\n";
    assert_eq!(text(out), expected);
}

#[test]
fn unit_and_type_text() {
    assert_eq!(Unit::Seconds.as_str(), "seconds");
    assert_eq!(MetricType::Gauge.as_str(), "gauge");
    assert_eq!(MetricType::Counter.as_str(), "counter");
}

#[test]
fn default_ds_exposition() {
    let ds = DefaultDS {
        two_step_flag: false,
        clock_identity: ClockIdentity([0, 1, 2, 3, 4, 5, 6, 7]),
        number_ports: 1,
        clock_quality: ClockQuality {
            clock_class: 248,
            clock_accuracy: ClockAccuracy(0x21),
            offset_scaled_log_variance: 0x4000,
        },
        priority_1: 128,
        priority_2: 128,
        domain_number: 0,
        slave_only: false,
    };
    let mut out = Vec::new();
    format_default_ds(&mut out, &ds);
    let mut expected = String::new();
    expected.push_str("# HELP statime_number_ports The amount of ports assigned.\n");
    expected.push_str("# TYPE statime_number_ports gauge\n");
    expected.push_str("statime_number_ports{clock_identity=\"0001020304050607\"} 1\n");
    expected.push_str("# HELP statime_quality_class The PTP clock class.\n");
    expected.push_str("# TYPE statime_quality_class gauge\n");
    expected.push_str("statime_quality_class{clock_identity=\"0001020304050607\"} 248\n");
    expected.push_str("# HELP statime_quality_accuracy The quality of the clock.\n");
    expected.push_str("# TYPE statime_quality_accuracy gauge\n");
    expected.push_str("statime_quality_accuracy{clock_identity=\"0001020304050607\"} 33\n");
    expected.push_str("# HELP statime_quality_offset_scaled_log_variance 2-log of the variance (in seconds^2) of the clock when not synchronized.\n");
    expected.push_str("# TYPE statime_quality_offset_scaled_log_variance gauge\n");
    expected.push_str("statime_quality_offset_scaled_log_variance{clock_identity=\"0001020304050607\"} 16384\n");
    assert_eq!(text(out), expected);
}

#[test]
fn time_properties_ds_exposition() {
    let ds = TimePropertiesDS {
        current_utc_offset: Some(37),
        leap59: false,
        leap61: false,
        time_traceable: false,
        frequency_traceable: false,
        ptp_timescale: true,
        time_source: 0xA0,
    };
    let mut out = Vec::new();
    format_time_properties_ds(&mut out, &ds);
    let expected = "# HELP statime_current_utc_offset Current offset from UTC.\n# TYPE statime_current_utc_offset gauge\nstatime_current_utc_offset 37\n";
    assert_eq!(text(out), expected);

    // An unknown UTC offset reads as zero.
    let mut out = Vec::new();
    format_time_properties_ds(
        &mut out,
        &TimePropertiesDS {
            current_utc_offset: None,
            ..ds
        },
    );
    assert!(text(out).ends_with("statime_current_utc_offset 0\n"));
}

#[test]
fn clock_identity_hex() {
    let id = ClockIdentity([0xDE, 0xAD, 0xBE, 0xEF, 0x00, 0x01, 0x0A, 0xFF]);
    assert_eq!(text(id.to_hex_bytes()), "deadbeef00010aff");
}
