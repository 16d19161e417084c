use snrt::config::{dimension_arg, DEFAULT_DIMENSION};

#[test]
fn numeric_dimension_is_read() {
    assert_eq!(dimension_arg("640"), 640);
    assert_eq!(dimension_arg("+12"), 12);
    assert_eq!(dimension_arg("0"), 0);
    assert_eq!(dimension_arg("4294967295"), u32::MAX);
}

#[test]
fn malformed_dimension_falls_back() {
    assert_eq!(DEFAULT_DIMENSION, 256);
    assert_eq!(dimension_arg("abc"), 256);
    assert_eq!(dimension_arg(""), 256);
    assert_eq!(dimension_arg("-3"), 256);
    assert_eq!(dimension_arg(" 5"), 256);
    assert_eq!(dimension_arg("12px"), 256);
    assert_eq!(dimension_arg("4294967296"), 256);
}
