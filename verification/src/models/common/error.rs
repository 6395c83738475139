use vstd::prelude::*;

use crate::kernels::kernel_error::KernelError;
use crate::models::llama::{config::ConfigError, weights::WeightsError};

verus! {

/// Why building or running a model failed.
#[derive(Debug)]
pub enum LLMError {
    InvalidTokenizer,
    InvalidConfig(ConfigError),
    InvalidWeights(WeightsError),
    Kernel(KernelError),
}

} // verus!
