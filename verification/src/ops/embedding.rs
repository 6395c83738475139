use vstd::prelude::*;

use crate::kernels::kernel_error::KernelError;

verus! {

/// Checks an embedding table `[embed_dim, ..]` stored in blocks of `elems`
/// values and returns the blocks per token: a row must be whole blocks.
pub fn plan_embed(weight_shape: &[usize], elems: usize) -> (r: Result<usize, KernelError>)
    requires
        weight_shape@.len() > 0,
        elems > 0,
    ensures
        r is Ok <==> weight_shape@[0] % elems == 0,
        r matches Ok(bpt) ==> bpt == weight_shape@[0] / elems,
        r is Err ==> r == Err::<usize, KernelError>(KernelError::ShapeMismatch),
{
    let embed_dim = weight_shape[0];
    if embed_dim % elems != 0 {
        return Err(KernelError::ShapeMismatch);
    }
    Ok(embed_dim / elems)
}

/// Checks that an output of `out_len` values has room for the rows of
/// `n_tokens` tokens; a short output is an `InvalidType`.
pub fn embed_output_fits(n_tokens: usize, embed_dim: usize, out_len: usize) -> (r: Result<
    (),
    KernelError,
>)
    requires
        n_tokens * embed_dim <= usize::MAX,
    ensures
        r is Ok <==> out_len >= n_tokens * embed_dim,
        r is Err ==> r == Err::<(), KernelError>(KernelError::InvalidType),
{
    if out_len < n_tokens * embed_dim {
        return Err(KernelError::InvalidType);
    }
    Ok(())
}

/// The blocks of token `token`'s row lie inside a table of `n_blocks`
/// blocks.
pub open spec fn token_row_in_table(token: u32, blocks_per_token: usize, n_blocks: usize) -> bool {
    (token + 1) * blocks_per_token <= n_blocks
}

/// Whether every token's row of blocks lies inside the table.
pub fn token_rows_in_table(tokens: &[u32], blocks_per_token: usize, n_blocks: usize) -> (r: bool)
    ensures
        r == forall|i: int|
            0 <= i < tokens@.len() ==> token_row_in_table(
                #[trigger] tokens@[i],
                blocks_per_token,
                n_blocks,
            ),
{
    let mut i: usize = 0;
    while i < tokens.len()
        invariant
            i <= tokens@.len(),
            forall|j: int|
                0 <= j < i ==> token_row_in_table(#[trigger] tokens@[j], blocks_per_token, n_blocks),
        decreases tokens@.len() - i,
    {
        let t = tokens[i];
        let fits = if blocks_per_token == 0 {
            true
        } else {
            let rows = n_blocks / blocks_per_token;
            proof {
                assert(((t as int) + 1) * blocks_per_token <= n_blocks <==> (t as int) + 1 <= rows)
                    by (nonlinear_arith)
                    requires
                        blocks_per_token > 0,
                        rows == n_blocks / blocks_per_token,
                        t >= 0,
                ;
            }
            (t as usize) < rows
        };
        if !fits {
            return false;
        }
        i = i + 1;
    }
    true
}

} // verus!
