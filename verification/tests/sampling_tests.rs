use ai_api::sampling::greedy_argmax;

/// Maps a logit to an integer key whose `<` order equals `f32::total_cmp`
/// on the logits, as a caller of the library would before handing logits
/// to `greedy_argmax`.
fn logit_key(x: f32) -> i64 {
    let bits = x.to_bits();
    let ordered = if bits & 0x8000_0000 != 0 { !bits } else { bits | 0x8000_0000 };
    ordered as i64
}

#[test]
fn greedy_tie_break_takes_first_maximum() {
    let logits: Vec<f32> = vec![0.5, 0.9, 0.9, 0.1];
    let keys: Vec<i64> = logits.iter().map(|x| logit_key(*x)).collect();
    assert_eq!(greedy_argmax(&keys), Some(1));
}

#[test]
fn greedy_on_integer_keys() {
    assert_eq!(greedy_argmax(&[5, 9, 9, 1]), Some(1));
    assert_eq!(greedy_argmax(&[3]), Some(0));
    assert_eq!(greedy_argmax(&[1, 2, 3]), Some(2));
    assert_eq!(greedy_argmax(&[7, 7, 7]), Some(0));
    assert_eq!(greedy_argmax(&[-5, -2, -9]), Some(1));
}

#[test]
fn greedy_on_empty_scores_selects_nothing() {
    assert_eq!(greedy_argmax(&[]), None);
}

#[test]
fn logit_key_order_matches_total_cmp() {
    let samples: Vec<f32> = vec![-3.5, -0.0, 0.0, 0.1, 0.5, 0.9, 7.25, f32::MIN, f32::MAX];
    for a in &samples {
        for b in &samples {
            let by_key = logit_key(*a).cmp(&logit_key(*b));
            assert_eq!(by_key, a.total_cmp(b));
        }
    }
}
