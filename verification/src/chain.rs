//! Fallback chains.
//!
//! A fact is obtained by trying an ordered list of probes.  Each step of a
//! chain holds the already-normalized output of one probe: `None` when the
//! probe failed or its output was malformed, `Some` otherwise.  The chain
//! resolves to the first valid step, and degrades to the sentinel
//! `"Unknown"` when every step has failed, so resolution is total: it never
//! hands a failure back to the caller.

use vstd::prelude::*;

verus! {

/// The fixed placeholder an exhausted fallback chain degrades to.
pub open spec fn sentinel() -> Seq<char> {
    "Unknown"@
}

/// A step carries a value only if its probe succeeded and normalization
/// produced a non-empty string; everything else falls through.
pub open spec fn step_is_valid(step: Option<Seq<char>>) -> bool {
    step is Some && step->0.len() > 0
}

/// The value a fallback chain resolves to: the value of the first valid
/// step, or the sentinel when no step is valid.
pub open spec fn chain_value(steps: Seq<Option<Seq<char>>>) -> Seq<char>
    decreases steps.len(),
{
    if steps.len() == 0 {
        sentinel()
    } else if step_is_valid(steps[0]) {
        steps[0]->0
    } else {
        chain_value(steps.drop_first())
    }
}

/// Walks a chain of normalized probe outputs and returns the value of the
/// first valid step, or `"Unknown"` when the chain is exhausted.  The result
/// is never empty, whatever the steps hold.
pub fn resolve(steps: &Vec<Option<String>>) -> (r: String)
    ensures
        r@ == chain_value(steps.deep_view()),
        r@.len() > 0,
{
    let ghost all: Seq<Option<Seq<char>>> = steps.deep_view();
    proof {
        assert(all.skip(0) =~= all);
    }
    let mut i: usize = 0;
    while i < steps.len()
        invariant
            i <= steps@.len(),
            all == steps.deep_view(),
            chain_value(all) == chain_value(all.skip(i as int)),
        decreases steps@.len() - i,
    {
        proof {
            assert(all.skip(i as int)[0] == all[i as int]);
        }
        if let Some(s) = &steps[i] {
            if !s.as_str().is_empty() {
                return s.clone();
            }
        }
        proof {
            assert(all.skip(i as int).drop_first() =~= all.skip(i as int + 1));
        }
        i = i + 1;
    }
    proof {
        assert(all.skip(steps@.len() as int) =~= Seq::<Option<Seq<char>>>::empty());
        reveal_strlit("Unknown");
    }
    String::from_str("Unknown")
}

/// Law: resolution is total — a fallback chain always yields a non-empty
/// string, even when every one of its probes has failed.
pub proof fn lemma_chain_value_nonempty(steps: Seq<Option<Seq<char>>>)
    ensures
        chain_value(steps).len() > 0,
    decreases steps.len(),
{
    reveal_strlit("Unknown");
    if steps.len() != 0 && !step_is_valid(steps[0]) {
        lemma_chain_value_nonempty(steps.drop_first());
    }
}

/// Law: a chain none of whose steps is valid resolves to the sentinel.
pub proof fn lemma_chain_exhausted(steps: Seq<Option<Seq<char>>>)
    requires
        forall|j: int| 0 <= j < steps.len() ==> !step_is_valid(steps[j]),
    ensures
        chain_value(steps) == sentinel(),
    decreases steps.len(),
{
    if steps.len() != 0 {
        assert(forall|j: int|
            0 <= j < steps.drop_first().len() ==> steps.drop_first()[j] == steps[j + 1]);
        lemma_chain_exhausted(steps.drop_first());
    }
}

/// Law: chain order is respected — the first valid step wins, and no step
/// after it can change the result.
pub proof fn lemma_chain_first_valid_wins(steps: Seq<Option<Seq<char>>>, n: int)
    requires
        0 <= n < steps.len(),
        step_is_valid(steps[n]),
        forall|j: int| 0 <= j < n ==> !step_is_valid(steps[j]),
    ensures
        chain_value(steps) == steps[n]->0,
    decreases n,
{
    if n > 0 {
        assert(!step_is_valid(steps[0]));
        lemma_chain_first_valid_wins(steps.drop_first(), n - 1);
        assert(steps.drop_first()[n - 1] == steps[n]);
    }
}

/// Law: if exactly one step of a chain is valid, the chain resolves to that
/// step's value, independent of which steps precede or follow it.
pub proof fn lemma_chain_single_success(steps: Seq<Option<Seq<char>>>, n: int)
    requires
        0 <= n < steps.len(),
        step_is_valid(steps[n]),
        forall|j: int| 0 <= j < steps.len() && j != n ==> !step_is_valid(steps[j]),
    ensures
        chain_value(steps) == steps[n]->0,
{
    lemma_chain_first_valid_wins(steps, n);
}

} // verus!
