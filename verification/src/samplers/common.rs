use vstd::prelude::*;

verus! {

/// Picks the next token from a row of logits.
pub trait Sampler<T: PartialOrd + Copy> {
    /// Returns the index of the chosen token in the logits slice.
    fn sample(logits: &[T]) -> (r: usize)
        requires
            logits@.len() > 0,
        ensures
            r < logits@.len(),
    ;
}

} // verus!
