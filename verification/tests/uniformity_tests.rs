use simon::button::Button;
use simon::pattern::PatternStore;

/// Over many random appends, each of the four identities appears with a
/// frequency near one quarter.  With 10,000 draws the expected count per
/// bucket is 2,500 with a standard deviation of about 43, so the bounds
/// below leave room for more than ten standard deviations.
#[test]
fn append_random_is_close_to_uniform() {
    let n: usize = 10_000;
    let mut store = PatternStore::new();
    for _ in 0..n {
        store.append_random();
    }
    assert_eq!(store.pattern.len(), n);

    let mut counts = [0usize; 4];
    for b in store.pattern.iter() {
        let i: usize = match b {
            Button::Red => 0,
            Button::Green => 1,
            Button::Blue => 2,
            Button::Yellow => 3,
        };
        counts[i] += 1;
    }
    for &c in counts.iter() {
        assert!(c >= 2_000, "bucket far below a quarter: {}", c);
        assert!(c <= 3_000, "bucket far above a quarter: {}", c);
    }
}
