use basic_witness::sampling::{decide, decide_with_draw, SamplingDecision, DRAW_HIGH, DRAW_LOW};

#[test]
fn draw_above_percentage_skips() {
    assert_eq!(decide_with_draw(Some(30), 31), SamplingDecision::Skip);
    assert_eq!(decide_with_draw(Some(30), 30), SamplingDecision::Prove);
    assert_eq!(decide_with_draw(Some(30), 1), SamplingDecision::Prove);
    assert_eq!(decide_with_draw(None, 99), SamplingDecision::Prove);
    assert_eq!(decide_with_draw(Some(0), 1), SamplingDecision::Skip);
}

#[test]
fn no_percentage_never_skips() {
    for _ in 0..1000 {
        assert_eq!(decide(None), SamplingDecision::Prove);
    }
}

#[test]
fn full_percentage_never_skips() {
    for _ in 0..1000 {
        assert_eq!(decide(Some(100)), SamplingDecision::Prove);
    }
}

#[test]
fn zero_percentage_always_skips() {
    for _ in 0..1000 {
        assert_eq!(decide(Some(0)), SamplingDecision::Skip);
    }
}

#[test]
fn skip_rate_follows_percentage() {
    let n = 20000;
    let mut skipped = 0;
    for _ in 0..n {
        if decide(Some(40)) == SamplingDecision::Skip {
            skipped += 1;
        }
    }
    let rate = skipped as f64 / n as f64;
    let expected = (DRAW_HIGH - 1 - 40) as f64 / (DRAW_HIGH - DRAW_LOW) as f64;
    assert!((rate - expected).abs() < 0.03, "rate {} expected {}", rate, expected);
}
