use candle_core::{Device, Tensor};
use llm_engine_endpoint::penalty::apply_repeat_penalty;

fn logits(values: Vec<f32>) -> Tensor {
    Tensor::new(values, &Device::Cpu).unwrap()
}

fn values(t: &Tensor) -> Vec<f32> {
    t.to_vec1::<f32>().unwrap()
}

#[test]
fn window_of_repeated_token_halves_its_positive_score() {
    // Window of size two over recent tokens [5, 5], penalty 2.0: the score at
    // index 5 falls from 10.0 to 5.0, the score at index 7 stays 3.0.
    let t = logits(vec![0.0, 0.0, 0.0, 0.0, 0.0, 10.0, 0.0, 3.0]);
    let tokens = vec![5u32, 5];
    let out = apply_repeat_penalty(&t, 2.0f32.to_bits(), &tokens, 2).unwrap();
    let v = values(&out);
    assert_eq!(v[5], 5.0);
    assert_eq!(v[7], 3.0);
    for i in [0usize, 1, 2, 3, 4, 6] {
        assert_eq!(v[i], 0.0);
    }
}

#[test]
fn negative_scores_are_multiplied() {
    let t = logits(vec![1.0, -4.0, 2.0]);
    let tokens = vec![1u32];
    let out = apply_repeat_penalty(&t, 2.0f32.to_bits(), &tokens, 8).unwrap();
    let v = values(&out);
    assert_eq!(v[0], 1.0);
    assert_eq!(v[1], -8.0);
    assert_eq!(v[2], 2.0);
}

#[test]
fn only_the_trailing_window_counts() {
    // Tokens [1, 2] with a window of one: only token 2 is recent enough to
    // be penalized.
    let t = logits(vec![8.0, 8.0, 8.0]);
    let tokens = vec![1u32, 2];
    let out = apply_repeat_penalty(&t, 2.0f32.to_bits(), &tokens, 1).unwrap();
    let v = values(&out);
    assert_eq!(v[0], 8.0);
    assert_eq!(v[1], 8.0);
    assert_eq!(v[2], 4.0);
}

#[test]
fn tokens_beyond_the_vocabulary_are_ignored() {
    let t = logits(vec![1.0, 2.0]);
    let tokens = vec![17u32];
    let out = apply_repeat_penalty(&t, 2.0f32.to_bits(), &tokens, 4).unwrap();
    assert_eq!(values(&out), vec![1.0, 2.0]);
}
