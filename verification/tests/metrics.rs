use zoomies::metric::{
    format_metric, write_count_metric_arb, write_count_metric_dec, write_count_metric_inc,
    CountMetric,
};
use zoomies::{DatagramFormat, Metric};

#[test]
fn test_metrics_arb() {
    assert_eq!(
        Metric::Arb::<u32>("custom_metric", 5).format(),
        "custom_metric:5|c"
    );
}

#[test]
fn test_metrics_inc() {
    assert_eq!(
        Metric::Inc::<u32>("custom_metric").format(),
        "custom_metric:1|c"
    );
}

#[test]
fn test_metrics_dec() {
    assert_eq!(
        Metric::Dec::<u32>("custom_metric").format(),
        "custom_metric:-1|c"
    );
}

#[test]
fn test_metrics_gauge() {
    assert_eq!(
        Metric::Gauge::<u32>("custom_metric", "3").format(),
        "custom_metric:3|g"
    );
}

#[test]
fn test_metrics_set() {
    assert_eq!(
        Metric::SetElement::<u32>("custom_metric", "person").format(),
        "custom_metric:person|s"
    );
}

#[test]
fn test_metrics_histogram() {
    assert_eq!(
        Metric::Histogram::<u32>("custom_metric", "240").format(),
        "custom_metric:240|h"
    );
}

#[test]
fn test_metrics_distribution() {
    assert_eq!(
        Metric::Distribution::<u32>("custom_metric", "42").format(),
        "custom_metric:42|d"
    );
}

#[test]
fn arbitrary_amounts_of_every_width() {
    assert_eq!(Metric::Arb("m", 0u8).format(), "m:0|c");
    assert_eq!(Metric::Arb("m", u8::MAX).format(), "m:255|c");
    assert_eq!(Metric::Arb("m", u16::MAX).format(), "m:65535|c");
    assert_eq!(Metric::Arb("m", u32::MAX).format(), "m:4294967295|c");
    assert_eq!(Metric::Arb("m", u64::MAX).format(), "m:18446744073709551615|c");
    assert_eq!(
        Metric::Arb("m", u128::MAX).format(),
        "m:340282366920938463463374607431768211455|c"
    );
    assert_eq!(Metric::Arb("m", 1000usize).format(), "m:1000|c");
    assert_eq!(Metric::Arb("m", i8::MIN).format(), "m:-128|c");
    assert_eq!(Metric::Arb("m", i16::MIN).format(), "m:-32768|c");
    assert_eq!(Metric::Arb("m", -7i32).format(), "m:-7|c");
    assert_eq!(Metric::Arb("m", i64::MIN).format(), "m:-9223372036854775808|c");
    assert_eq!(
        Metric::Arb("m", i128::MIN).format(),
        "m:-170141183460469231731687303715884105728|c"
    );
    assert_eq!(
        Metric::Arb("m", i128::MAX).format(),
        "m:170141183460469231731687303715884105727|c"
    );
    assert_eq!(Metric::Arb("m", -10isize).format(), "m:-10|c");
}

#[test]
fn arbitrary_amount_matches_std() {
    for amount in [0i64, 1, 9, 10, 11, 99, 100, 101, 1009, -1, -9, -10, -100, 123456789] {
        assert_eq!(Metric::Arb("m", amount).format(), format!("m:{}|c", amount));
    }
}

#[test]
fn values_are_sent_as_given() {
    assert_eq!(Metric::Gauge::<u8>("g", "0.25").format(), "g:0.25|g");
    assert_eq!(Metric::Gauge::<u8>("", "").format(), ":|g");
    assert_eq!(Metric::SetElement::<u8>("s", "a:b|c").format(), "s:a:b|c|s");
}

#[test]
fn metric_formats_the_same_twice() {
    let metric = Metric::Arb("requests", -12i32);
    let first = metric.format();
    let second = metric.format();
    assert_eq!(first.as_bytes(), second.as_bytes());
}

#[test]
fn namespace_goes_before_the_name() {
    let no_tags: [(&str, &str); 0] = [];
    assert_eq!(
        format_metric(&Metric::Inc::<u32>("zoomies"), "app", &no_tags),
        b"app.zoomies:1|c".to_vec()
    );
    assert_eq!(
        format_metric(&Metric::Inc::<u32>("zoomies"), "", &no_tags),
        b"zoomies:1|c".to_vec()
    );
}

#[test]
fn datagram_with_namespace_and_tags() {
    let tags = [("Norway", 100), ("Denmark", 50)];
    assert_eq!(
        format_metric(&Metric::Gauge::<u32>("timber", "3"), "forest", &tags),
        b"forest.timber:3|g|#Norway:100,Denmark:50".to_vec()
    );
}

#[test]
fn datagram_is_in_bytes_of_utf8() {
    let tags = [("stadt", "Zürich")];
    assert_eq!(
        format_metric(&Metric::Histogram::<u32>("größe", "1"), "", &tags),
        "größe:1|h|#stadt:Zürich".as_bytes().to_vec()
    );
}

#[test]
fn count_metrics() {
    let no_tags: [(&str, &str); 0] = [];
    assert_eq!(format_metric(&CountMetric::Inc("hits", 9u8), "", &no_tags), b"hits:1|c".to_vec());
    assert_eq!(format_metric(&CountMetric::Dec("hits", 9u8), "", &no_tags), b"hits:-1|c".to_vec());
    assert_eq!(format_metric(&CountMetric::Arb("hits", 9u8), "ns", &no_tags), b"ns.hits:9|c".to_vec());
    assert_eq!(write_count_metric_inc("n"), "n:1|c");
    assert_eq!(write_count_metric_dec("n"), "n:-1|c");
    assert_eq!(write_count_metric_arb("n", &-3i16), "n:-3|c");
}
