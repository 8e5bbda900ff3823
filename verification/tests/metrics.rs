use nx_gov_metrics::counters::memory_pages_to_bytes;
use nx_gov_metrics::counters::stable_memory_size_bytes;
use nx_gov_metrics::counters::wasm_memory_size_bytes;
use nx_gov_metrics::counters::WASM_PAGE_SIZE;
use nx_gov_metrics::decimal::u64_to_dec_string;
use nx_gov_metrics::encoder::encode_metrics;
use nx_gov_metrics::encoder::BufferSink;
use nx_gov_metrics::encoder::FailingSink;
use nx_gov_metrics::encoder::GaugeValues;
use nx_gov_metrics::encoder::MetricsEncoder;
use nx_gov_metrics::encoder::MetricsSink;
use nx_gov_metrics::response::build_metrics_response;
use nx_gov_metrics::response::get_metrics;
use nx_gov_metrics::response::HttpResponse;

const STABLE_NAME: &str = "nx_gov_stable_memory_size_gib";
const WASM_NAME: &str = "nx_gov_wasm_memory_size_gib";
const CYCLES_NAME: &str = "nx_gov_canister_cycles_balance";

/// Bytes to binary gibibytes, as the host-side conversion renders gauges.
fn gibibytes(bytes: u64) -> f64 {
    (bytes as f64) / ((1u64 << 30) as f64)
}

fn values_from_counters(stable_bytes: u64, wasm_bytes: u64, balance: u128) -> GaugeValues {
    GaugeValues {
        stable_memory_gib: format!("{}", gibibytes(stable_bytes)),
        wasm_memory_gib: format!("{}", gibibytes(wasm_bytes)),
        cycles_balance: format!("{}", balance as f64),
    }
}

fn body_text(r: &HttpResponse) -> String {
    String::from_utf8(r.body.clone()).expect("body is UTF-8 text")
}

#[test]
fn off_platform_counters_are_zero_on_every_call() {
    assert_eq!(stable_memory_size_bytes(), 0);
    assert_eq!(stable_memory_size_bytes(), 0);
    assert_eq!(wasm_memory_size_bytes(), 0);
    assert_eq!(wasm_memory_size_bytes(), 0);
}

#[test]
fn pages_convert_to_bytes() {
    assert_eq!(WASM_PAGE_SIZE, 65536);
    assert_eq!(memory_pages_to_bytes(0), 0);
    assert_eq!(memory_pages_to_bytes(3), 196608);
    assert_eq!(memory_pages_to_bytes(16384), 1u64 << 30);
}

#[test]
fn decimal_rendering_matches_std() {
    assert_eq!(u64_to_dec_string(0), "0");
    assert_eq!(u64_to_dec_string(7), "7");
    assert_eq!(u64_to_dec_string(10), "10");
    assert_eq!(u64_to_dec_string(1234567890), "1234567890");
    assert_eq!(u64_to_dec_string(u64::MAX), "18446744073709551615");
}

#[test]
fn success_response_has_status_200_and_exact_content_length() {
    let values = values_from_counters(123, 456, 789);
    let r = get_metrics(1700000000000, &values);
    assert_eq!(r.status_code, 200);
    assert_eq!(r.headers.len(), 2);
    assert_eq!(r.headers[0].0, "Content-Type");
    assert_eq!(r.headers[0].1, "text/plain; version=0.0.4");
    assert_eq!(r.headers[1].0, "Content-Length");
    let declared: usize = r.headers[1].1.parse().expect("decimal length");
    assert_eq!(declared, r.body.len());
}

#[test]
fn golden_payload_for_zero_counters() {
    let values = values_from_counters(0, 0, 0);
    let r = get_metrics(123, &values);
    let expected = "\
# HELP nx_gov_stable_memory_size_gib Amount of stable memory used by this canister, in GiB\n\
# TYPE nx_gov_stable_memory_size_gib gauge\n\
nx_gov_stable_memory_size_gib 0 123\n\
# HELP nx_gov_wasm_memory_size_gib Amount of wasm memory used by this canister, in GiB\n\
# TYPE nx_gov_wasm_memory_size_gib gauge\n\
nx_gov_wasm_memory_size_gib 0 123\n\
# HELP nx_gov_canister_cycles_balance Amount of wasm memory used by this canister, in GiB\n\
# TYPE nx_gov_canister_cycles_balance gauge\n\
nx_gov_canister_cycles_balance 0 123\n";
    assert_eq!(body_text(&r), expected);
}

#[test]
fn names_appear_once_in_fixed_order_with_metadata() {
    let values = values_from_counters(1 << 30, 1 << 31, 500);
    let r = get_metrics(42, &values);
    let text = body_text(&r);
    assert!(text.ends_with('\n'));
    let lines: Vec<&str> = text.trim_end_matches('\n').split('\n').collect();
    assert_eq!(lines.len(), 9);
    for (block, name, help) in [
        (0, STABLE_NAME, "Amount of stable memory used by this canister, in GiB"),
        (3, WASM_NAME, "Amount of wasm memory used by this canister, in GiB"),
        (6, CYCLES_NAME, "Amount of wasm memory used by this canister, in GiB"),
    ] {
        assert_eq!(lines[block], format!("# HELP {} {}", name, help));
        assert_eq!(lines[block + 1], format!("# TYPE {} gauge", name));
        assert!(lines[block + 2].starts_with(&format!("{} ", name)));
    }
    for name in [STABLE_NAME, WASM_NAME, CYCLES_NAME] {
        let sample_count = lines
            .iter()
            .filter(|l| !l.starts_with('#') && l.starts_with(&format!("{} ", name)))
            .count();
        assert_eq!(sample_count, 1, "{} must head exactly one sample line", name);
    }
}

#[test]
fn unchanged_counters_give_same_shape_up_to_timestamp() {
    let values = values_from_counters(999, 123456, 42);
    let first = get_metrics(1000, &values);
    let second = get_metrics(2000, &values);
    let first_lines: Vec<String> =
        body_text(&first).trim_end_matches('\n').split('\n').map(str::to_string).collect();
    let second_lines: Vec<String> =
        body_text(&second).trim_end_matches('\n').split('\n').map(str::to_string).collect();
    assert_eq!(first_lines.len(), 9);
    assert_eq!(second_lines.len(), 9);
    for i in 0..9 {
        if i == 2 || i == 5 || i == 8 {
            let a = first_lines[i].strip_suffix(" 1000").expect("first timestamp");
            let b = second_lines[i].strip_suffix(" 2000").expect("second timestamp");
            assert_eq!(a, b);
        } else {
            assert_eq!(first_lines[i], second_lines[i]);
        }
    }
}

#[test]
fn zero_counters_scenario() {
    let values = values_from_counters(0, 0, 0);
    let r = get_metrics(777, &values);
    assert_eq!(r.status_code, 200);
    let text = body_text(&r);
    assert!(text.contains("nx_gov_stable_memory_size_gib 0 777\n"));
    assert!(text.contains("nx_gov_wasm_memory_size_gib 0 777\n"));
    assert!(text.contains("nx_gov_canister_cycles_balance 0 777\n"));
}

#[test]
fn gibibyte_counters_scenario() {
    let values = values_from_counters(1 << 30, 1 << 31, 500);
    assert_eq!(values.stable_memory_gib, "1");
    assert_eq!(values.wasm_memory_gib, "2");
    assert_eq!(values.cycles_balance, "500");
    let r = get_metrics(777, &values);
    assert_eq!(r.status_code, 200);
    let text = body_text(&r);
    assert!(text.contains("nx_gov_stable_memory_size_gib 1 777\n"));
    assert!(text.contains("nx_gov_wasm_memory_size_gib 2 777\n"));
    assert!(text.contains("nx_gov_canister_cycles_balance 500 777\n"));
}

#[test]
fn gibibytes_conversion_is_exact_division() {
    assert_eq!(gibibytes(0), 0.0);
    assert_eq!(gibibytes(1 << 30), 1.0);
    assert_eq!(gibibytes(1 << 29), 0.5);
    assert_eq!(gibibytes(3 << 30), 3.0);
}

#[test]
fn forced_encode_failure_gives_500_with_prefixed_body() {
    let values = values_from_counters(0, 0, 0);
    let r = build_metrics_response(FailingSink {}, 123, &values);
    assert_eq!(r.status_code, 500);
    assert!(r.headers.is_empty());
    let text = body_text(&r);
    assert!(text.starts_with("Failed to encode metrics: "));
    assert!(text.len() > "Failed to encode metrics: ".len());
}

#[test]
fn failing_sink_fails_encoding_with_a_message() {
    let mut encoder = MetricsEncoder::new(FailingSink {}, 5);
    let values = values_from_counters(0, 0, 0);
    let err = encode_metrics(&mut encoder, &values).expect_err("failing sink must fail");
    assert!(!err.message.is_empty());
}

#[test]
fn buffer_sink_accepts_writes_unchanged() {
    let mut sink = BufferSink::new();
    sink.write_text("abc").expect("buffer writes succeed");
    sink.write_text(" def").expect("buffer writes succeed");
    assert_eq!(sink.into_buffer(), "abc def");
}

#[test]
fn payload_matches_the_metrics_encoder_crate() {
    let stable_bytes: u64 = 5 << 28;
    let wasm_bytes: u64 = 7 << 29;
    let balance: u128 = 123456789;
    let now_millis: u64 = 1699999999123;

    let mut w = ic_metrics_encoder::MetricsEncoder::new(vec![], now_millis as i64);
    w.encode_gauge(
        STABLE_NAME,
        gibibytes(stable_bytes),
        "Amount of stable memory used by this canister, in GiB",
    )
    .expect("in-memory write");
    w.encode_gauge(
        WASM_NAME,
        gibibytes(wasm_bytes),
        "Amount of wasm memory used by this canister, in GiB",
    )
    .expect("in-memory write");
    w.encode_gauge(
        CYCLES_NAME,
        balance as f64,
        "Amount of wasm memory used by this canister, in GiB",
    )
    .expect("in-memory write");
    let reference_body = w.into_inner();

    let values = values_from_counters(stable_bytes, wasm_bytes, balance);
    let r = get_metrics(now_millis, &values);
    assert_eq!(r.body, reference_body);
}
