use vstd::prelude::*;

use crate::effect::{combine_view, empty_view, Effect, EffectView};
use crate::error::PrepareError;

verus! {

/// What a finished preparer reports, seen through the effect's view.
pub open spec fn outcome_view<X, R, G, S>(o: Result<Effect<X, R, G, S>, PrepareError>) -> Result<
    EffectView<X, R, G, S>,
    PrepareError,
> {
    match o {
        Ok(e) => Ok(e@),
        Err(e) => Err(e),
    }
}

/// Adds one member's outcome to what a set holds so far: an earlier error
/// stays, otherwise a new error is taken, otherwise the effects combine.
pub open spec fn join_outcome<X, R, G, S>(
    acc: Result<EffectView<X, R, G, S>, PrepareError>,
    next: Result<EffectView<X, R, G, S>, PrepareError>,
) -> Result<EffectView<X, R, G, S>, PrepareError> {
    match acc {
        Err(e) => Err(e),
        Ok(a) => match next {
            Err(e) => Err(e),
            Ok(b) => Ok(combine_view(a, b)),
        },
    }
}

/// The outcome of a set whose members reported `s`, in join order.
pub open spec fn fold_outcomes<X, R, G, S>(
    s: Seq<Result<EffectView<X, R, G, S>, PrepareError>>,
) -> Result<EffectView<X, R, G, S>, PrepareError>
    decreases s.len(),
{
    if s.len() == 0 {
        Ok(empty_view())
    } else {
        join_outcome(fold_outcomes(s.drop_last()), s.last())
    }
}

/// A batch of preparers that run together; their outcomes are folded in the
/// order in which they were joined, whatever order they finished in.
pub struct ConcurrentPrepareSet<X, R, G, S> {
    outcome: Result<Effect<X, R, G, S>, PrepareError>,
}

impl<X, R, G, S> ConcurrentPrepareSet<X, R, G, S> {
    /// The outcome folded so far.
    pub closed spec fn outcome(&self) -> Result<EffectView<X, R, G, S>, PrepareError> {
        outcome_view(self.outcome)
    }

    /// A set with no members: it yields the neutral effect and cannot fail.
    pub fn new() -> (r: Self)
        ensures
            r.outcome() == Ok::<_, PrepareError>(empty_view::<X, R, G, S>()),
    {
        ConcurrentPrepareSet { outcome: Ok(Effect::new()) }
    }

    /// Adds the outcome of the next member in join order.
    pub fn join(self, outcome: Result<Effect<X, R, G, S>, PrepareError>) -> (r: Self)
        ensures
            r.outcome() == join_outcome(self.outcome(), outcome_view(outcome)),
    {
        let next = match self.outcome {
            Err(e) => Err(e),
            Ok(a) => match outcome {
                Err(e) => Err(e),
                Ok(b) => Ok(a.combine(b)),
            },
        };
        ConcurrentPrepareSet { outcome: next }
    }

    /// Folds the outcomes of all members, given in join order.
    pub fn from_outcomes(outcomes: Vec<Result<Effect<X, R, G, S>, PrepareError>>) -> (r: Self)
        ensures
            r.outcome() == fold_outcomes(outcomes@.map_values(|o| outcome_view(o))),
    {
        let ghost views = outcomes@.map_values(|o: Result<Effect<X, R, G, S>, PrepareError>| outcome_view(o));
        let mut set = Self::new();
        let mut rest = outcomes;
        let mut i: usize = 0;
        let n = rest.len();
        while i < n
            invariant
                n == views.len(),
                i <= n,
                rest.len() == n - i,
                forall|k: int| 0 <= k < rest.len() ==> outcome_view(#[trigger] rest@[k]) == views[i + k],
                set.outcome() == fold_outcomes(views.take(i as int)),
            decreases n - i,
        {
            let o = rest.remove(0);
            assert(outcome_view(o) == views[i as int]);
            assert(views.take(i + 1).drop_last() =~= views.take(i as int));
            set = set.join(o);
            i = i + 1;
        }
        assert(views.take(n as int) =~= views);
        set
    }

    /// The set's single outcome: the first error in join order, or else the
    /// combination of all effects in join order.
    pub fn to_prepared_effect(self) -> (r: Result<Effect<X, R, G, S>, PrepareError>)
        ensures
            outcome_view(r) == self.outcome(),
    {
        self.outcome
    }
}

/// A set whose members before index `i` succeeded and whose member `i` failed
/// reports exactly the error of member `i`, whatever the later members did.
pub proof fn lemma_set_reports_first_error<X, R, G, S>(
    s: Seq<Result<EffectView<X, R, G, S>, PrepareError>>,
    i: int,
)
    requires
        0 <= i < s.len(),
        s[i] is Err,
        forall|j: int| 0 <= j < i ==> s[j] is Ok,
    ensures
        fold_outcomes(s) == s[i],
{
    lemma_fold_prefix(s, i, s.len() as int);
    assert(s.take(s.len() as int) =~= s);
}

proof fn lemma_fold_prefix<X, R, G, S>(
    s: Seq<Result<EffectView<X, R, G, S>, PrepareError>>,
    i: int,
    n: int,
)
    requires
        0 <= i < s.len(),
        s[i] is Err,
        forall|j: int| 0 <= j < i ==> s[j] is Ok,
        0 <= n <= s.len(),
    ensures
        n <= i ==> fold_outcomes(s.take(n)) is Ok,
        n > i ==> fold_outcomes(s.take(n)) == s[i],
    decreases n,
{
    if n > 0 {
        lemma_fold_prefix(s, i, n - 1);
        assert(s.take(n).drop_last() =~= s.take(n - 1));
    }
}

} // verus!
