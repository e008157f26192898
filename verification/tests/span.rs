use careful_resume::span::Span;
use std::time::Duration;

fn same(span: Span, duration: Duration) {
    assert_eq!(span.as_secs(), duration.as_secs());
    assert_eq!(span.subsec_nanos(), duration.subsec_nanos());
    assert_eq!(span.as_nanos(), duration.as_nanos());
}

#[test]
fn spans_count_like_durations() {
    for n in [0, 1, 999, 1_000, 1_001, 999_999, 1_000_000, 1_234_567_891, u64::MAX] {
        same(Span::from_secs(n), Duration::from_secs(n));
        same(Span::from_millis(n), Duration::from_millis(n));
        same(Span::from_micros(n), Duration::from_micros(n));
        same(Span::new(n, 999_999_999), Duration::new(n, 999_999_999));
    }
    assert_eq!(Span::from_millis(1_500).as_nanos(), 1_500_000_000);
}

#[test]
fn longest_span() {
    let longest = Span::new(u64::MAX, 999_999_999);
    same(longest, Duration::MAX);
    assert_eq!(longest.as_nanos(), 18_446_744_073_709_551_615_999_999_999);
}
