use vstd::prelude::*;

verus! {

/// How a corpus of tokens is cut into evaluation windows of `n_ctx` slots:
/// one slot for the BOS token, `per_window` corpus tokens, of which those
/// after the first `burn` positions of the window are scored.
#[derive(Debug, Clone, Copy, PartialEq, Eq, Structural)]
pub struct WindowPlan {
    pub per_window: usize,
    pub n_windows_total: usize,
    pub n_windows: usize,
    pub burn: usize,
}

/// Plans the windows for `n_tokens` corpus tokens and a context of `n_ctx`
/// slots; `max_windows` caps the count, 0 meaning no cap.
pub fn plan_windows(n_tokens: usize, n_ctx: usize, max_windows: usize) -> (p: WindowPlan)
    requires
        n_ctx >= 4,
    ensures
        p.per_window == n_ctx - 1,
        p.n_windows_total == (n_tokens as int) / (n_ctx - 1),
        p.n_windows == if max_windows == 0 || max_windows > p.n_windows_total {
            p.n_windows_total
        } else {
            max_windows
        },
        p.burn == n_ctx / 2,
        p.n_windows * p.per_window <= n_tokens,
        1 <= p.burn < n_ctx,
{
    let per_window = n_ctx - 1;
    let n_windows_total = n_tokens / per_window;
    let n_windows = if max_windows == 0 || max_windows > n_windows_total {
        n_windows_total
    } else {
        max_windows
    };
    proof {
        assert(n_windows_total * per_window <= n_tokens) by (nonlinear_arith)
            requires
                per_window > 0,
                n_windows_total == n_tokens / per_window,
        ;
        assert(n_windows * per_window <= n_windows_total * per_window) by (nonlinear_arith)
            requires
                n_windows <= n_windows_total,
        ;
    }
    WindowPlan { per_window, n_windows_total, n_windows, burn: n_ctx / 2 }
}

} // verus!
