//! The loop behind every iterative solver: refine a state until a test
//! accepts it, with a bound on the number of refinements.

use crate::error::GeoError;
use vstd::prelude::*;

verus! {

/// The number of refinements that the solvers of this toolkit allow.
pub const MAX_REFINEMENTS: u32 = 50;

/// `states` is what a run of the loop goes through: every state but the last
/// was tested and not accepted, and each state after the first is a
/// refinement of the one before it.
pub open spec fn is_run<S, D: Fn(&S) -> bool, N: Fn(S) -> S>(done: D, refine: N, states: Seq<S>) -> bool {
    &&& states.len() >= 1
    &&& forall|i: int|
        0 <= i < states.len() - 1 ==> #[trigger] done.ensures((&states[i],), false)
    &&& forall|i: int|
        0 <= i < states.len() - 1 ==> refine.ensures((states[i],), #[trigger] states[i + 1])
}

/// Runs `while !done(state) { state = refine(state) }` from `start`, for at
/// most `max_refinements` refinements.
///
/// `Ok` holds the first state that `done` accepted. `Err` is
/// `NonConvergence`: `done` refused `start` and each of `max_refinements`
/// refinements after it.
pub fn iterate_until<S, D: Fn(&S) -> bool, N: Fn(S) -> S>(
    start: S,
    done: D,
    refine: N,
    max_refinements: u32,
) -> (r: Result<S, GeoError>)
    requires
        forall|s: S| done.requires((&s,)),
        forall|s: S| refine.requires((s,)),
    ensures
        match r {
            Ok(s) => exists|states: Seq<S>|
                {
                    &&& #[trigger] is_run(done, refine, states)
                    &&& states.len() <= max_refinements + 1
                    &&& states[0] == start
                    &&& states.last() == s
                    &&& done.ensures((&s,), true)
                },
            Err(e) => {
                &&& e == GeoError::NonConvergence
                &&& exists|states: Seq<S>|
                    {
                        &&& #[trigger] is_run(done, refine, states)
                        &&& states.len() == max_refinements + 1
                        &&& states[0] == start
                        &&& done.ensures((&states.last(),), false)
                    }
            },
        },
{
    let mut state = start;
    let mut used: u32 = 0;
    let ghost mut states: Seq<S> = seq![start];
    loop
        invariant
            forall|s: S| done.requires((&s,)),
            forall|s: S| refine.requires((s,)),
            used <= max_refinements,
            is_run(done, refine, states),
            states.len() == used + 1,
            states[0] == start,
            states.last() == state,
        decreases max_refinements - used,
    {
        if done(&state) {
            return Ok(state);
        }
        if used == max_refinements {
            return Err(GeoError::NonConvergence);
        }
        let ghost before = states;
        state = refine(state);
        used = used + 1;
        proof {
            states = before.push(state);
            assert forall|i: int| 0 <= i < states.len() - 1 implies #[trigger] done.ensures(
                (&states[i],),
                false,
            ) by {
                if i < before.len() - 1 {
                    assert(states[i] == before[i]);
                }
            }
            assert forall|i: int| 0 <= i < states.len() - 1 implies refine.ensures(
                (states[i],),
                #[trigger] states[i + 1],
            ) by {
                if i < before.len() - 1 {
                    assert(states[i] == before[i]);
                    assert(states[i + 1] == before[i + 1]);
                }
            }
        }
    }
}

} // verus!
