use regite::metric::{
    format_metric_line, u64_to_string, MetricReporter, MetricReporterError, MetricReporterImpl,
    SendLine,
};

struct AssertingSender;

impl SendLine for AssertingSender {
    fn send_line(&self, line: &str) -> Result<(), String> {
        assert_eq!("name value 123\n", line);
        Ok(())
    }
}

#[test]
fn test_formats() {
    let reporter = MetricReporterImpl::new(AssertingSender);

    assert_eq!(Ok(()), reporter.report("name", "value", 123));
}

struct FailingSender;

impl SendLine for FailingSender {
    fn send_line(&self, _line: &str) -> Result<(), String> {
        Err("unsupported".to_string())
    }
}

#[test]
fn metric_test_io_error() {
    let reporter = MetricReporterImpl::new(FailingSender);

    assert_eq!(
        MetricReporterError::new("IO Error: unsupported"),
        reporter.report("name", "value", 123).unwrap_err()
    );
}

#[test]
fn test_format_metric_line() {
    assert_eq!("name value 123\n", format_metric_line("name", "value", 123));
    assert_eq!("a.b.c 0 0\n", format_metric_line("a.b.c", "0", 0));
}

#[test]
fn test_u64_to_string() {
    assert_eq!("0", u64_to_string(0));
    assert_eq!("7", u64_to_string(7));
    assert_eq!("10", u64_to_string(10));
    assert_eq!("123", u64_to_string(123));
    assert_eq!("18446744073709551615", u64_to_string(u64::MAX));
}

#[test]
fn test_reporter_error_message() {
    let e = MetricReporterError::new("IO Error: x");
    assert_eq!("IO Error: x", e.message());
}
