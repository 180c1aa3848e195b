use stream_report::errors::RunError;
use stream_report::report::{
    banner_line, default_user_login, first_stream_report, render_report, secret_path,
    success_line, u64_to_dec, StreamRecord,
};

fn record(title: &str, viewer_count: u64, started_at: &str) -> StreamRecord {
    StreamRecord {
        title: title.to_string(),
        viewer_count,
        started_at: started_at.to_string(),
    }
}

#[test]
fn report_has_exactly_the_three_labelled_lines() {
    let rec = record("Test Stream", 42, "2024-01-01T00:00:00Z");
    let out = first_stream_report(&vec![rec]).unwrap();
    assert_eq!(
        out,
        "Stream info:\n  Title:      Test Stream\n  Viewers:    42\n  Started at: 2024-01-01T00:00:00Z\n"
    );
}

#[test]
fn only_the_first_record_is_reported() {
    let first = record("One", 1, "2020-02-02T02:02:02Z");
    let second = record("Two", 2, "2021-03-03T03:03:03Z");
    let out = first_stream_report(&vec![first, second]).unwrap();
    assert_eq!(
        out,
        "Stream info:\n  Title:      One\n  Viewers:    1\n  Started at: 2020-02-02T02:02:02Z\n"
    );
}

#[test]
fn empty_result_list_is_a_data_error() {
    let r = first_stream_report(&vec![]);
    assert_eq!(r.err(), Some(RunError::DataError));
}

#[test]
fn render_report_matches_first_stream_report() {
    let rec = record("A title with spaces", 123456, "2023-12-31T23:59:59Z");
    let direct = render_report(&rec);
    let through_list = first_stream_report(&vec![rec]).unwrap();
    assert_eq!(direct, through_list);
}

#[test]
fn decimal_rendering_exact_values() {
    assert_eq!(u64_to_dec(0), "0");
    assert_eq!(u64_to_dec(7), "7");
    assert_eq!(u64_to_dec(10), "10");
    assert_eq!(u64_to_dec(42), "42");
    assert_eq!(u64_to_dec(100), "100");
    assert_eq!(u64_to_dec(1234567890), "1234567890");
    assert_eq!(u64_to_dec(u64::MAX), "18446744073709551615");
}

#[test]
fn fixed_lines_and_constants() {
    assert_eq!(banner_line(), "Hello, stream!");
    assert_eq!(success_line(), "Ok!");
    assert_eq!(default_user_login(), "jptiz");
    assert_eq!(secret_path(), ".secret.json");
}
