use vstd::prelude::*;

use crate::kernels::kernel_error::KernelError;
use crate::ops::shape::same_shape;

verus! {

/// A norm weight fits rows of `x`: `x` has a last dimension `dim`, and the
/// weight is `[dim]`.
pub open spec fn norm_weight_fits(x: Seq<usize>, weight: Seq<usize>) -> bool {
    &&& x.len() > 0
    &&& weight == seq![x.last()]
}

/// The row width of a norm of `weight` over the last axis of `x`.
fn norm_dim(x: &[usize], weight: &[usize]) -> (r: Result<usize, KernelError>)
    ensures
        r is Ok <==> norm_weight_fits(x@, weight@),
        r matches Ok(dim) ==> dim == x@.last(),
        r is Err ==> r == Err::<usize, KernelError>(KernelError::ShapeMismatch),
{
    if x.len() == 0 {
        return Err(KernelError::ShapeMismatch);
    }
    let dim = x[x.len() - 1];
    if weight.len() != 1 || weight[0] != dim {
        return Err(KernelError::ShapeMismatch);
    }
    proof {
        assert(weight@ =~= seq![x@.last()]);
    }
    Ok(dim)
}

/// Checks `output = (input / rms(input)) * weight` along the last axis and
/// returns the row width: `output` is shaped as `input`, and `weight` is
/// `[dim]` for the last dimension `dim` of `input`.
pub fn plan_rms_norm(input: &[usize], weight: &[usize], output: &[usize]) -> (r: Result<
    usize,
    KernelError,
>)
    ensures
        r is Ok <==> (input@ == output@ && norm_weight_fits(input@, weight@)),
        r matches Ok(dim) ==> dim == input@.last(),
        r is Err ==> r == Err::<usize, KernelError>(KernelError::ShapeMismatch),
{
    if !same_shape(input, output) {
        return Err(KernelError::ShapeMismatch);
    }
    norm_dim(input, weight)
}

/// Checks the in-place norm `x = (x / rms(x)) * weight` and returns the
/// row width.
pub fn plan_rms_norm_inplace(x: &[usize], weight: &[usize]) -> (r: Result<usize, KernelError>)
    ensures
        r is Ok <==> norm_weight_fits(x@, weight@),
        r matches Ok(dim) ==> dim == x@.last(),
        r is Err ==> r == Err::<usize, KernelError>(KernelError::ShapeMismatch),
{
    norm_dim(x, weight)
}

} // verus!
