//! The implied-volatility search as a state machine.
//!
//! The search is Newton's method on the pricing formula. The arithmetic is
//! the caller's: it prices the option at the volatility the machine asks
//! for and reports what it found as an [`Evaluation`]. Every decision is
//! made here: when the search has converged, when it must give up, and
//! which estimate it hands out.

use vstd::prelude::*;
use vstd::arithmetic::power2::{pow2, lemma_pow2_adds, lemma_pow2_pos, lemma2_to64, lemma2_to64_rest};
use crate::binary64::Binary64;

verus! {

/// The number of Newton steps after which the search gives up.
pub const MAX_ITERATIONS: u32 = 100;

/// The bit pattern of the volatility every search starts from, one half.
pub const INITIAL_VOLATILITY_BITS: u64 = 0x3FE0_0000_0000_0000;

/// The bit pattern of the largest price error that counts as converged:
/// the binary64 value nearest to one hundred-thousandth.
pub const TOLERANCE_BITS: u64 = 0x3EE4_F8B5_88E3_68F1;

/// What the caller found when it priced the option at the volatility asked for.
#[derive(Clone, Copy, Debug, PartialEq, Eq, Structural)]
pub struct Evaluation {
    /// The model price at that volatility, minus the market price.
    pub price_error: Binary64,
    /// The derivative of the model price with respect to volatility, there.
    pub vega: Binary64,
    /// That volatility, minus the price error divided by vega.
    pub newton_estimate: Binary64,
}

/// Why a search ended without converging.
#[derive(Clone, Copy, Debug, PartialEq, Eq, Structural)]
pub enum Reason {
    /// Vega was zero, so no Newton step could be taken.
    VegaZero,
    /// The step limit was reached.
    MaxIterationsReached,
}

/// How a search ended.
#[derive(Clone, Copy, Debug, PartialEq, Eq, Structural)]
pub enum Outcome {
    /// The price error fell below the tolerance at this volatility.
    Converged(Binary64),
    /// The search stopped at this estimate, for this reason.
    DidNotConverge(Binary64, Reason),
}

/// Where a search stands.
#[derive(Clone, Copy, Debug, PartialEq, Eq, Structural)]
pub enum SolverState {
    /// Waiting for the evaluation at `volatility`, after `iteration` Newton steps.
    Iterating { volatility: Binary64, iteration: u32 },
    /// Over; no evaluation changes it any more.
    Finished(Outcome),
}

/// The volatility every search starts from.
pub open spec fn initial_volatility() -> Binary64 {
    Binary64 { bits: INITIAL_VOLATILITY_BITS }
}

/// The largest price error that counts as converged, exclusive.
pub open spec fn tolerance() -> Binary64 {
    Binary64 { bits: TOLERANCE_BITS }
}

impl Evaluation {
    /// The price error is a number whose absolute value is below the tolerance.
    pub open spec fn converged(self) -> bool {
        self.price_error.magnitude_below(tolerance())
    }
}

impl Outcome {
    /// The volatility a search ended at: the one found, or the last estimate.
    pub open spec fn estimate(self) -> Binary64 {
        match self {
            Outcome::Converged(volatility) => volatility,
            Outcome::DidNotConverge(estimate, _) => estimate,
        }
    }

    /// The volatility the search ended at, converged or not.
    pub fn volatility(self) -> (volatility: Binary64)
        ensures
            volatility == self.estimate(),
    {
        match self {
            Outcome::Converged(volatility) => volatility,
            Outcome::DidNotConverge(estimate, _) => estimate,
        }
    }

    /// Whether a search in state `before` ends with this outcome on taking
    /// in `evaluation`.
    pub open spec fn decided_by(self, before: SolverState, evaluation: Evaluation) -> bool {
        before is Iterating && before.next(evaluation) == SolverState::Finished(self)
    }
}

impl SolverState {
    /// The state of a search before its first evaluation.
    pub open spec fn initial() -> SolverState {
        SolverState::Iterating { volatility: initial_volatility(), iteration: 0 }
    }

    /// The state that follows `self` once `evaluation` has come in.
    pub open spec fn next(self, evaluation: Evaluation) -> SolverState {
        match self {
            SolverState::Iterating { volatility, iteration } => {
                if evaluation.converged() {
                    SolverState::Finished(Outcome::Converged(volatility))
                } else if evaluation.vega.zero() {
                    SolverState::Finished(Outcome::DidNotConverge(volatility, Reason::VegaZero))
                } else if iteration + 1 >= MAX_ITERATIONS {
                    SolverState::Finished(
                        Outcome::DidNotConverge(
                            evaluation.newton_estimate,
                            Reason::MaxIterationsReached,
                        ),
                    )
                } else {
                    SolverState::Iterating {
                        volatility: evaluation.newton_estimate,
                        iteration: (iteration + 1) as u32,
                    }
                }
            },
            SolverState::Finished(outcome) => SolverState::Finished(outcome),
        }
    }

    /// The state reached from `self` by a sequence of evaluations, first to last.
    pub open spec fn run(self, evaluations: Seq<Evaluation>) -> SolverState
        decreases evaluations.len(),
    {
        if evaluations.len() == 0 {
            self
        } else {
            self.run(evaluations.drop_last()).next(evaluations.last())
        }
    }

    /// The volatility the caller is to evaluate at next; none once the search is over.
    pub open spec fn requested(self) -> Option<Binary64> {
        match self {
            SolverState::Iterating { volatility, .. } => Some(volatility),
            SolverState::Finished(_) => None,
        }
    }

    /// How the search ended; none while it is under way.
    pub open spec fn result(self) -> Option<Outcome> {
        match self {
            SolverState::Iterating { .. } => None,
            SolverState::Finished(outcome) => Some(outcome),
        }
    }

    /// An upper bound on the evaluations a search in this state still takes in.
    pub open spec fn steps_left(self) -> nat {
        match self {
            SolverState::Iterating { iteration, .. } => {
                if iteration < MAX_ITERATIONS {
                    (MAX_ITERATIONS - iteration) as nat
                } else {
                    1
                }
            },
            SolverState::Finished(_) => 0,
        }
    }

    /// Begins a search: volatility one half, no step taken.
    pub fn start() -> (state: SolverState)
        ensures
            state == SolverState::initial(),
    {
        SolverState::Iterating {
            volatility: Binary64::from_bits(INITIAL_VOLATILITY_BITS),
            iteration: 0,
        }
    }

    /// Takes in the evaluation at the requested volatility and decides how
    /// the search goes on. A price error below the tolerance ends it as
    /// converged, at the volatility that was evaluated. Failing that, a zero
    /// vega ends it at the same volatility. Otherwise the Newton estimate
    /// becomes the next volatility, unless this was the last step allowed.
    pub fn step(self, evaluation: Evaluation) -> (state: SolverState)
        ensures
            state == self.next(evaluation),
    {
        match self {
            SolverState::Iterating { volatility, iteration } => {
                if evaluation.price_error.is_magnitude_below(Binary64::from_bits(TOLERANCE_BITS)) {
                    SolverState::Finished(Outcome::Converged(volatility))
                } else if evaluation.vega.is_zero() {
                    SolverState::Finished(Outcome::DidNotConverge(volatility, Reason::VegaZero))
                } else if iteration >= MAX_ITERATIONS - 1 {
                    SolverState::Finished(
                        Outcome::DidNotConverge(
                            evaluation.newton_estimate,
                            Reason::MaxIterationsReached,
                        ),
                    )
                } else {
                    SolverState::Iterating {
                        volatility: evaluation.newton_estimate,
                        iteration: iteration + 1,
                    }
                }
            },
            SolverState::Finished(outcome) => SolverState::Finished(outcome),
        }
    }

    /// The volatility to evaluate at next, while the search is under way.
    pub fn pending(&self) -> (volatility: Option<Binary64>)
        ensures
            volatility == self.requested(),
    {
        match self {
            SolverState::Iterating { volatility, .. } => Some(*volatility),
            SolverState::Finished(_) => None,
        }
    }

    /// How the search ended, once it is over.
    pub fn outcome(&self) -> (outcome: Option<Outcome>)
        ensures
            outcome == self.result(),
    {
        match self {
            SolverState::Iterating { .. } => None,
            SolverState::Finished(outcome) => Some(*outcome),
        }
    }

    /// A finished search stays as it is, whatever comes in afterwards.
    pub proof fn lemma_finished_is_final(self, evaluations: Seq<Evaluation>)
        requires
            self is Finished,
        ensures
            self.run(evaluations) == self,
        decreases evaluations.len(),
    {
        if evaluations.len() > 0 {
            self.lemma_finished_is_final(evaluations.drop_last());
        }
    }

    /// Every evaluation uses up a step: after as many evaluations as
    /// `steps_left` counts, the search is over.
    pub proof fn lemma_steps_run_out(self, evaluations: Seq<Evaluation>)
        ensures
            self.run(evaluations).steps_left() + evaluations.len() <= self.steps_left()
                || self.run(evaluations) is Finished,
            evaluations.len() >= self.steps_left() ==> self.run(evaluations) is Finished,
        decreases evaluations.len(),
    {
        if evaluations.len() > 0 {
            self.lemma_steps_run_out(evaluations.drop_last());
        }
    }

    /// No search takes in more than `MAX_ITERATIONS` evaluations: after
    /// that many, whatever they held, it is over.
    pub proof fn lemma_search_is_bounded(evaluations: Seq<Evaluation>)
        requires
            evaluations.len() >= MAX_ITERATIONS,
        ensures
            SolverState::initial().run(evaluations) is Finished,
    {
        SolverState::initial().lemma_steps_run_out(evaluations);
    }

    /// While a search is under way, its step counter is the number of
    /// evaluations taken in, which is below the limit, and from the second
    /// request on it asks for the Newton estimate it was given last.
    pub proof fn lemma_iterating_follows_estimates(evaluations: Seq<Evaluation>)
        requires
            SolverState::initial().run(evaluations) is Iterating,
        ensures
            SolverState::initial().run(evaluations) == (SolverState::Iterating {
                volatility: if evaluations.len() == 0 {
                    initial_volatility()
                } else {
                    evaluations.last().newton_estimate
                },
                iteration: evaluations.len() as u32,
            }),
            evaluations.len() < MAX_ITERATIONS,
        decreases evaluations.len(),
    {
        if evaluations.len() > 0 {
            let before = SolverState::initial().run(evaluations.drop_last());
            if before is Iterating {
                Self::lemma_iterating_follows_estimates(evaluations.drop_last());
            }
        }
    }

    /// A finished search was decided by one evaluation: the search was
    /// under way before it, and taking it in gave the outcome. Read through
    /// `next`, this is what each outcome means. Converged: the price error
    /// of that evaluation was below the tolerance, and the volatility
    /// handed out is the one it was asked for. Zero vega: likewise it is the
    /// volatility asked for. Step limit: it is that evaluation's Newton
    /// estimate.
    pub proof fn lemma_finished_was_decided(evaluations: Seq<Evaluation>, outcome: Outcome)
        requires
            SolverState::initial().run(evaluations) == SolverState::Finished(outcome),
        ensures
            exists|i: int|
                0 <= i < evaluations.len() && outcome.decided_by(
                    SolverState::initial().run(evaluations.take(i)),
                    #[trigger] evaluations[i],
                ),
        decreases evaluations.len(),
    {
        let earlier = evaluations.drop_last();
        let last = evaluations.len() - 1;
        if SolverState::initial().run(earlier) is Iterating {
            assert(evaluations.take(last) =~= earlier);
            assert(outcome.decided_by(
                SolverState::initial().run(evaluations.take(last)),
                evaluations[last],
            ));
        } else {
            Self::lemma_finished_was_decided(earlier, outcome);
            let i = choose|i: int|
                0 <= i < last && outcome.decided_by(
                    SolverState::initial().run(earlier.take(i)),
                    #[trigger] earlier[i],
                );
            assert(earlier.take(i) =~= evaluations.take(i));
            assert(outcome.decided_by(
                SolverState::initial().run(evaluations.take(i)),
                evaluations[i],
            ));
        }
    }

    /// A search that gave up at the step limit took in that many
    /// evaluations, none of them converged or with a zero vega among
    /// the first `MAX_ITERATIONS`, and it hands out the last Newton estimate.
    pub proof fn lemma_exhausted_has_run_full(evaluations: Seq<Evaluation>, estimate: Binary64)
        requires
            SolverState::initial().run(evaluations) == SolverState::Finished(
                Outcome::DidNotConverge(estimate, Reason::MaxIterationsReached),
            ),
        ensures
            evaluations.len() >= MAX_ITERATIONS,
            estimate == evaluations[MAX_ITERATIONS - 1].newton_estimate,
            forall|i: int|
                0 <= i < MAX_ITERATIONS ==> !(#[trigger] evaluations[i]).converged()
                    && !evaluations[i].vega.zero(),
        decreases evaluations.len(),
    {
        let earlier = evaluations.drop_last();
        let before = SolverState::initial().run(earlier);
        if before is Iterating {
            Self::lemma_iterating_follows_estimates(earlier);
            Self::lemma_iterating_saw_no_end(earlier);
        } else {
            Self::lemma_exhausted_has_run_full(earlier, estimate);
        }
        assert forall|i: int| 0 <= i < MAX_ITERATIONS implies !(#[trigger] evaluations[i]).converged()
            && !evaluations[i].vega.zero() by {
            if i < earlier.len() {
                assert(earlier[i] == evaluations[i]);
            }
        }
    }

    /// While a search is under way, no evaluation so far has converged or
    /// had a zero vega.
    pub proof fn lemma_iterating_saw_no_end(evaluations: Seq<Evaluation>)
        requires
            SolverState::initial().run(evaluations) is Iterating,
        ensures
            forall|i: int|
                0 <= i < evaluations.len() ==> !(#[trigger] evaluations[i]).converged()
                    && !evaluations[i].vega.zero(),
        decreases evaluations.len(),
    {
        if evaluations.len() > 0 {
            let earlier = evaluations.drop_last();
            if SolverState::initial().run(earlier) is Iterating {
                Self::lemma_iterating_saw_no_end(earlier);
            }
            assert forall|i: int| 0 <= i < evaluations.len() implies !(
            #[trigger] evaluations[i]).converged() && !evaluations[i].vega.zero() by {
                if i < earlier.len() {
                    assert(earlier[i] == evaluations[i]);
                }
            }
        }
    }
}

/// Whether the evaluation at position `i` is an answer of `evaluate` to
/// the volatility that a search asks for after the evaluations before it.
pub open spec fn answers_request<F: Fn(Binary64) -> Evaluation>(
    evaluate: F,
    evaluations: Seq<Evaluation>,
    i: int,
) -> bool {
    let state = SolverState::initial().run(evaluations.take(i));
    state is Iterating && call_ensures(evaluate, (state->volatility,), evaluations[i])
}

/// Whether `evaluations` is what `evaluate` may have answered to a search,
/// request by request.
pub open spec fn answers_search<F: Fn(Binary64) -> Evaluation>(
    evaluate: F,
    evaluations: Seq<Evaluation>,
) -> bool {
    forall|i: int|
        0 <= i < evaluations.len() ==> #[trigger] answers_request(evaluate, evaluations, i)
}

/// Searches for the volatility at which the model price meets the market
/// price. `evaluate` prices the option at the volatility it is handed and
/// reports the price error, vega and the Newton estimate there.
///
/// The outcome is the one the state machine reaches on the answers of
/// `evaluate`, asked one after the other for the volatility the machine
/// requests, until the machine has finished; that takes at most
/// `MAX_ITERATIONS` calls. In particular one answer of `evaluate` decided
/// it: a converged outcome holds a volatility at which `evaluate` reported
/// a price error below the tolerance.
pub fn calculate_implied_volatility<F: Fn(Binary64) -> Evaluation>(evaluate: F) -> (outcome:
    Outcome)
    requires
        forall|volatility: Binary64| call_requires(evaluate, (volatility,)),
    ensures
        exists|evaluations: Seq<Evaluation>|
            {
                &&& evaluations.len() <= MAX_ITERATIONS
                &&& answers_search(evaluate, evaluations)
                &&& #[trigger] SolverState::initial().run(evaluations) == SolverState::Finished(
                    outcome,
                )
            },
        exists|before: SolverState, evaluation: Evaluation|
            {
                &&& before is Iterating
                &&& call_ensures(evaluate, (before->volatility,), evaluation)
                &&& #[trigger] outcome.decided_by(before, evaluation)
            },
{
    let mut state = SolverState::start();
    let ghost mut seen: Seq<Evaluation> = Seq::empty();
    loop
        invariant
            forall|volatility: Binary64| call_requires(evaluate, (volatility,)),
            state == SolverState::initial().run(seen),
            answers_search(evaluate, seen),
            seen.len() + state.steps_left() <= MAX_ITERATIONS,
        decreases state.steps_left(),
    {
        match state {
            SolverState::Finished(outcome) => {
                proof {
                    SolverState::lemma_finished_was_decided(seen, outcome);
                    let i = choose|i: int|
                        0 <= i < seen.len() && outcome.decided_by(
                            SolverState::initial().run(seen.take(i)),
                            #[trigger] seen[i],
                        );
                    assert(answers_request(evaluate, seen, i));
                }
                return outcome;
            },
            SolverState::Iterating { volatility, .. } => {
                let evaluation = evaluate(volatility);
                proof {
                    lemma_search_extends(evaluate, seen, evaluation);
                    seen = seen.push(evaluation);
                }
                state = state.step(evaluation);
            },
        }
    }
}

/// One more answer to the pending request extends a search by one step.
proof fn lemma_search_extends<F: Fn(Binary64) -> Evaluation>(
    evaluate: F,
    seen: Seq<Evaluation>,
    evaluation: Evaluation,
)
    requires
        answers_search(evaluate, seen),
        SolverState::initial().run(seen) is Iterating,
        call_ensures(evaluate, (SolverState::initial().run(seen)->volatility,), evaluation),
    ensures
        answers_search(evaluate, seen.push(evaluation)),
        SolverState::initial().run(seen.push(evaluation)) == SolverState::initial().run(seen).next(
            evaluation,
        ),
{
    let longer = seen.push(evaluation);
    assert(longer.drop_last() =~= seen);
    assert forall|i: int| 0 <= i < longer.len() implies #[trigger] answers_request(
        evaluate,
        longer,
        i,
    ) by {
        if i < seen.len() {
            assert(answers_request(evaluate, seen, i));
            assert(longer.take(i) =~= seen.take(i));
        } else {
            assert(longer.take(i) =~= seen);
        }
    }
}

/// The starting volatility denotes exactly one half.
pub proof fn lemma_initial_volatility_is_one_half()
    ensures
        initial_volatility().positive(),
        2 * initial_volatility().scaled_value() == pow2(1074),
{
    let v = initial_volatility();
    let unit = pow2(1021);
    assert(v.biased_exponent() == 1022);
    assert(v.fraction() == 0);
    assert(v.scaled_value() == 0x10_0000_0000_0000 * unit);
    lemma_pow2_pos(1021);
    lemma2_to64_rest();
    lemma_pow2_adds(53, 1021);
    assert(2 * (0x10_0000_0000_0000 * unit) == 0x20_0000_0000_0000 * unit) by (nonlinear_arith);
    assert(0x10_0000_0000_0000 * unit > 0) by (nonlinear_arith)
        requires
            unit > 0,
    ;
}

/// The tolerance is the binary64 value nearest to one hundred-thousandth:
/// the two differ by less than half the spacing of the values around it.
pub proof fn lemma_tolerance_is_nearest_to_one_hundred_thousandth()
    ensures
        tolerance().positive(),
        tolerance().biased_exponent() == 1006,
        2 * (100_000 * tolerance().scaled_value() - pow2(1074)) < 100_000 * pow2(1005),
        2 * (pow2(1074) - 100_000 * tolerance().scaled_value()) < 100_000 * pow2(1005),
{
    let t = tolerance();
    let unit = pow2(1005);
    assert(t.biased_exponent() == 1006);
    assert(t.fraction() == 1399358476216561);
    assert(t.scaled_value() == 5902958103587057 * unit);
    lemma_pow2_pos(1005);
    lemma2_to64();
    lemma_pow2_adds(5, 64);
    lemma_pow2_adds(69, 1005);
    assert(pow2(69) == 590295810358705651712) by (nonlinear_arith)
        requires
            pow2(69) == pow2(5) * pow2(64),
            pow2(5) == 0x20,
            pow2(64) == 0x10000000000000000,
    ;
    assert(pow2(1074) == 590295810358705651712 * unit);
    assert(5902958103587057 * unit > 0 && 100_000 * (5902958103587057 * unit)
        - 590295810358705651712 * unit == 48288 * unit && 2 * (48288 * unit) < 100_000 * unit
        && 48288 * unit > 0) by (nonlinear_arith)
        requires
            unit > 0,
    ;
}

} // verus!
