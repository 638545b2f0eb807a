use candle_core::{Device, Tensor};
use llm_engine_endpoint::sampler::Sampler;

fn logits(values: Vec<f32>) -> Tensor {
    Tensor::new(values, &Device::Cpu).unwrap()
}

#[test]
fn greedy_picks_the_maximum() {
    let mut sampler = Sampler::new(0, None, None);
    let t = logits(vec![0.5, -1.0, 7.25, 3.0]);
    assert_eq!(sampler.sample(&t), Some(2));
}

#[test]
fn greedy_breaks_ties_by_lowest_index() {
    let mut sampler = Sampler::new(0, None, None);
    let t = logits(vec![1.0, 3.0, 3.0, 3.0]);
    assert_eq!(sampler.sample(&t), Some(1));
}

#[test]
fn greedy_is_deterministic_across_calls() {
    let mut a = Sampler::new(1, None, None);
    let mut b = Sampler::new(99, Some(0.0f64.to_bits()), None);
    let t = logits(vec![-2.0, -0.5, -8.0]);
    let first = a.sample(&t);
    assert_eq!(first, Some(1));
    assert_eq!(a.sample(&t), first);
    // A zero temperature bit pattern is greedy as well, whatever the seed.
    assert_eq!(b.sample(&t), first);
}

#[test]
fn greedy_handles_all_negative_scores() {
    let mut sampler = Sampler::new(0, None, None);
    let t = logits(vec![-3.5, -1.25, -9.0]);
    assert_eq!(sampler.sample(&t), Some(1));
}

#[test]
fn temperature_draw_returns_a_valid_index() {
    let mut sampler = Sampler::new(42, Some(0.8f64.to_bits()), None);
    let t = logits(vec![0.0, 1000.0, 0.0]);
    // The mass at index 1 overwhelms the rest, so a seeded draw lands there.
    assert_eq!(sampler.sample(&t), Some(1));
}

#[test]
fn top_p_draw_returns_a_valid_index() {
    let mut sampler = Sampler::new(7, Some(0.9f64.to_bits()), Some(0.5f64.to_bits()));
    let t = logits(vec![0.0, 1000.0, 0.0, 0.0]);
    assert_eq!(sampler.sample(&t), Some(1));
}
