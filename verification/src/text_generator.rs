use vstd::prelude::*;

verus! {

/// What the generator does after a token has been sampled: stop, or keep
/// the token and feed the model `input`, after clearing its cache when
/// `reset_cache` is set; when `last` is set the step budget is spent and
/// the generation ends once the token has been emitted.
#[derive(Debug, PartialEq, Eq)]
pub enum StepAction {
    Stop,
    Feed { input: Vec<u32>, reset_cache: bool, last: bool },
}

/// The decision of one generation step. An end-of-sequence token stops the
/// generation unless `ignore_eos` is set; any other token is appended to
/// `tokens`. The next forward pass then gets just the new token, attending
/// against the cache, or, when the cache is disabled, the whole sequence on
/// a cleared cache. Step `step` (counted from 1) of at most `max_tokens`
/// is the last one when it reaches the budget.
pub fn next_step(
    tokens: &mut Vec<u32>,
    next: u32,
    eos_token_id: u32,
    ignore_eos: bool,
    no_kv_cache: bool,
    step: usize,
    max_tokens: usize,
) -> (r: StepAction)
    ensures
        r is Stop <==> (next == eos_token_id && !ignore_eos),
        r is Stop ==> final(tokens)@ == old(tokens)@,
        r matches StepAction::Feed { input, reset_cache, last } ==> {
            &&& final(tokens)@ == old(tokens)@.push(next)
            &&& reset_cache == no_kv_cache
            &&& last == (step >= max_tokens)
            &&& input@ == if no_kv_cache {
                final(tokens)@
            } else {
                seq![next]
            }
        },
{
    if next == eos_token_id && !ignore_eos {
        return StepAction::Stop;
    }
    tokens.push(next);
    if no_kv_cache {
        let mut input: Vec<u32> = Vec::new();
        let mut i: usize = 0;
        while i < tokens.len()
            invariant
                i <= tokens@.len(),
                input@ == tokens@.subrange(0, i as int),
            decreases tokens@.len() - i,
        {
            input.push(tokens[i]);
            i = i + 1;
            proof {
                assert(input@ =~= tokens@.subrange(0, i as int));
            }
        }
        proof {
            assert(tokens@.subrange(0, tokens@.len() as int) =~= tokens@);
        }
        StepAction::Feed { input, reset_cache: true, last: step >= max_tokens }
    } else {
        let mut input: Vec<u32> = Vec::new();
        input.push(next);
        proof {
            assert(input@ =~= seq![next]);
        }
        StepAction::Feed { input, reset_cache: false, last: step >= max_tokens }
    }
}

/// What the cache holds once the model has taken a step's input: the new
/// tokens alone on a cleared cache, or appended to what it held.
pub open spec fn cache_after_feed(cached: Seq<u32>, input: Seq<u32>, reset_cache: bool) -> Seq<u32> {
    if reset_cache {
        input
    } else {
        cached + input
    }
}

/// The cache stays in step with the sequence: if it holds every token
/// before a step, then after the step's `Feed` has been taken it holds
/// every token again, the sampled one included, whether or not the cache
/// is in use.
pub proof fn lemma_feed_keeps_cache_in_step(
    tokens: Seq<u32>,
    next: u32,
    no_kv_cache: bool,
    new_tokens: Seq<u32>,
    input: Seq<u32>,
    reset_cache: bool,
)
    requires
        new_tokens == tokens.push(next),
        reset_cache == no_kv_cache,
        input == if no_kv_cache {
            new_tokens
        } else {
            seq![next]
        },
    ensures
        cache_after_feed(tokens, input, reset_cache) == new_tokens,
{
    if !no_kv_cache {
        assert(tokens + seq![next] =~= tokens.push(next));
    }
}

} // verus!
