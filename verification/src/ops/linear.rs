use vstd::prelude::*;

use crate::file_parser::ggml_type::GGMLType;
use crate::kernels::kernel_error::KernelError;
use crate::kernels::tensor::NonOwningTensor;
use crate::ops::shape::same_shape;

verus! {

/// The shapes of `output = input @ weight` agree: `input` is `[m, in_dim]`,
/// `weight` is `[in_dim, out_dim]` and `output` is `[m, out_dim]`.
pub open spec fn linear_shapes_agree(input: Seq<usize>, weight: Seq<usize>, output: Seq<usize>) -> bool {
    &&& input.len() == 2
    &&& weight.len() == 2
    &&& output.len() == 2
    &&& weight[0] == input[1]
    &&& output[0] == input[0]
    &&& output[1] == weight[1]
}

/// Checks the shapes of one projection and returns `(m, in_dim, out_dim)`.
pub fn plan_linear(input: &[usize], weight: &[usize], output: &[usize]) -> (r: Result<
    (usize, usize, usize),
    KernelError,
>)
    ensures
        r is Ok <==> linear_shapes_agree(input@, weight@, output@),
        r matches Ok(dims) ==> dims == (input@[0], input@[1], weight@[1]),
        r is Err ==> r == Err::<(usize, usize, usize), KernelError>(KernelError::ShapeMismatch),
{
    if input.len() != 2 || weight.len() != 2 || output.len() != 2 {
        return Err(KernelError::ShapeMismatch);
    }
    let m = input[0];
    let in_dim = input[1];
    let out_dim = weight[1];
    if weight[0] != in_dim || output[0] != m || output[1] != out_dim {
        return Err(KernelError::ShapeMismatch);
    }
    Ok((m, in_dim, out_dim))
}

/// What a shared projection runs with: the input's `[m, in_dim]`, the one
/// layout of all weights, and whether the activations are quantized to
/// 8 bits first.
#[derive(Debug, Clone, Copy, PartialEq, Eq, Structural)]
pub struct SharedPlan {
    pub m: usize,
    pub in_dim: usize,
    pub dtype: GGMLType,
    pub int_acts: bool,
}

/// One weight of a shared projection agrees with the input `[m, in_dim]`:
/// it is `[in_dim, out_dim]` and its output is `[m, out_dim]`.
pub open spec fn part_agrees(input: Seq<usize>, weight: Seq<usize>, output: Seq<usize>) -> bool {
    &&& weight.len() == 2
    &&& weight[0] == input[1]
    &&& output == seq![input[0], weight[1]]
}

/// The shapes of a shared projection agree: one output per weight, at
/// least one weight, an input `[m, in_dim]` with `in_dim` a multiple of 32,
/// and every weight agreeing with it.
pub open spec fn shared_shapes_agree(
    input: Seq<usize>,
    weights: Seq<&NonOwningTensor>,
    outputs: Seq<&[usize]>,
) -> bool {
    &&& weights.len() == outputs.len()
    &&& weights.len() > 0
    &&& input.len() == 2
    &&& input[1] % 32 == 0
    &&& forall|i: int|
        0 <= i < weights.len() ==> part_agrees(input, #[trigger] weights[i].shape@, outputs[i]@)
}

/// All weights share the first one's layout.
pub open spec fn same_layout(weights: Seq<&NonOwningTensor>) -> bool {
    forall|i: int| 0 <= i < weights.len() ==> #[trigger] weights[i].dtype == weights[0].dtype
}

/// Layouts whose products run on 8-bit activations.
pub open spec fn has_int_kernel(dtype: GGMLType) -> bool {
    dtype == GGMLType::Q8_0 || dtype == GGMLType::Q4_0
}

/// Checks several projections of one input, `outputs[i] = input @
/// weights[i]`, where `outputs` gives each output's shape. A shape that
/// disagrees is a `ShapeMismatch`; weights of different layouts are an
/// `InvalidType`. Activations are quantized for Q8_0 and Q4_0 weights
/// unless `force_f32_acts` is set.
pub fn plan_linear_shared(
    input: &[usize],
    weights: &[&NonOwningTensor],
    outputs: &[&[usize]],
    force_f32_acts: bool,
) -> (r: Result<SharedPlan, KernelError>)
    ensures
        r == Err::<SharedPlan, KernelError>(KernelError::ShapeMismatch) <==> !shared_shapes_agree(
            input@,
            weights@,
            outputs@,
        ),
        r == Err::<SharedPlan, KernelError>(KernelError::InvalidType) <==> (shared_shapes_agree(
            input@,
            weights@,
            outputs@,
        ) && !same_layout(weights@)),
        r is Ok <==> (shared_shapes_agree(input@, weights@, outputs@) && same_layout(weights@)),
        r matches Ok(p) ==> {
            &&& p.m == input@[0]
            &&& p.in_dim == input@[1]
            &&& p.dtype == weights@[0].dtype
            &&& p.int_acts == (has_int_kernel(p.dtype) && !force_f32_acts)
        },
{
    if weights.len() != outputs.len() || weights.len() == 0 {
        return Err(KernelError::ShapeMismatch);
    }
    if input.len() != 2 || input[1] % 32 != 0 {
        return Err(KernelError::ShapeMismatch);
    }
    let m = input[0];
    let in_dim = input[1];
    let n = weights.len();
    let mut i: usize = 0;
    while i < n
        invariant
            n == weights@.len(),
            n == outputs@.len(),
            i <= n,
            n > 0,
            input@.len() == 2,
            input@[1] % 32 == 0,
            m == input@[0],
            in_dim == input@[1],
            forall|j: int| 0 <= j < i ==> part_agrees(input@, #[trigger] weights@[j].shape@, outputs@[j]@),
        decreases n - i,
    {
        let w = weights[i];
        let out = outputs[i];
        if w.shape.len() != 2 || w.shape[0] != in_dim {
            return Err(KernelError::ShapeMismatch);
        }
        let expected = [m, w.shape[1]];
        let agrees = same_shape(out, expected.as_slice());
        proof {
            assert(expected@ =~= seq![input@[0], weights@[i as int].shape@[1]]);
        }
        if !agrees {
            return Err(KernelError::ShapeMismatch);
        }
        i = i + 1;
    }
    let dtype = weights[0].dtype;
    let mut j: usize = 0;
    while j < n
        invariant
            n == weights@.len(),
            j <= n,
            n > 0,
            shared_shapes_agree(input@, weights@, outputs@),
            dtype == weights@[0].dtype,
            forall|l: int| 0 <= l < j ==> #[trigger] weights@[l].dtype == dtype,
        decreases n - j,
    {
        if weights[j].dtype != dtype {
            proof {
                assert(weights@[j as int].dtype != weights@[0].dtype);
            }
            return Err(KernelError::InvalidType);
        }
        j = j + 1;
    }
    let int_acts = (dtype == GGMLType::Q8_0 || dtype == GGMLType::Q4_0) && !force_f32_acts;
    Ok(SharedPlan { m, in_dim, dtype, int_acts })
}

} // verus!
