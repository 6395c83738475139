use squirrel_rs::samplers::common::Sampler;
use squirrel_rs::samplers::greedy::GreedySampler;

#[test]
fn picks_max_index() {
    let logits = [0.1f32, -2.3, 5.7, 4.0];
    assert_eq!(<GreedySampler as Sampler<f32>>::sample(&logits), 2);
}

#[test]
fn ignores_nan() {
    let logits = [1.0f32, f32::NAN, 3.0, 2.0];
    assert_eq!(<GreedySampler as Sampler<f32>>::sample(&logits), 2);
}

#[test]
fn ties_go_to_the_last_maximum() {
    let logits = [3i64, 7, 1, 7, 2];
    assert_eq!(<GreedySampler as Sampler<i64>>::sample(&logits), 3);
}

#[test]
fn single_logit_is_chosen() {
    let logits = [-4i32];
    assert_eq!(<GreedySampler as Sampler<i32>>::sample(&logits), 0);
}

#[test]
fn trailing_nan_is_taken() {
    // A NaN compares as equal to what is held, so the later index wins.
    let logits = [1.0f32, 3.0, f32::NAN];
    assert_eq!(<GreedySampler as Sampler<f32>>::sample(&logits), 2);
}

#[test]
fn integer_logits_pick_the_maximum() {
    let logits = [10u32, 40, 30, 20];
    assert_eq!(<GreedySampler as Sampler<u32>>::sample(&logits), 1);
}
