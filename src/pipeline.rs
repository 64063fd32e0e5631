use std::sync::Arc;

use vstd::prelude::*;

use crate::concurrent::{outcome_view, ConcurrentPrepareSet};
use crate::effect::{combine_view, empty_view, Effect, EffectView};
use crate::error::{PrepareError, StartError};

verus! {

/// What a pipeline holds: the effect combined so far, or why it stopped.
pub open spec fn state_view<X, R, G, S>(o: Result<Effect<X, R, G, S>, StartError>) -> Result<
    EffectView<X, R, G, S>,
    StartError,
> {
    match o {
        Ok(e) => Ok(e@),
        Err(e) => Err(e),
    }
}

/// The state after the logger was initialised with `outcome`.
pub open spec fn logger_step<X, R, G, S>(
    state: Result<EffectView<X, R, G, S>, StartError>,
    outcome: Result<(), String>,
) -> Result<EffectView<X, R, G, S>, StartError> {
    match state {
        Err(e) => Err(e),
        Ok(a) => match outcome {
            Err(m) => Err(StartError::LoggerInit(m)),
            Ok(_) => Ok(a),
        },
    }
}

/// The state after one more sequential step reported `outcome`: a stopped
/// pipeline stays stopped, a failure stops it, a success is combined last.
pub open spec fn append_step<X, R, G, S>(
    state: Result<EffectView<X, R, G, S>, StartError>,
    outcome: Result<EffectView<X, R, G, S>, PrepareError>,
) -> Result<EffectView<X, R, G, S>, StartError> {
    match state {
        Err(e) => Err(e),
        Ok(a) => match outcome {
            Err(e) => Err(StartError::Prepare(e)),
            Ok(b) => Ok(combine_view(a, b)),
        },
    }
}

/// The state after the steps that reported `s`, in declared order.
pub open spec fn run_steps<X, R, G, S>(
    state: Result<EffectView<X, R, G, S>, StartError>,
    s: Seq<Result<EffectView<X, R, G, S>, PrepareError>>,
) -> Result<EffectView<X, R, G, S>, StartError>
    decreases s.len(),
{
    if s.len() == 0 {
        state
    } else {
        append_step(run_steps(state, s.drop_last()), s.last())
    }
}

/// The sequential preparation pipeline: it holds the shared configuration and
/// the effect combined so far, and stops at the first failure.
pub struct ServerPrepare<C, X, R, G, S> {
    configure: Arc<C>,
    state: Result<Effect<X, R, G, S>, StartError>,
}

impl<C, X, R, G, S> ServerPrepare<C, X, R, G, S> {
    /// The effect combined so far, or why the pipeline stopped.
    pub closed spec fn state(&self) -> Result<EffectView<X, R, G, S>, StartError> {
        state_view(self.state)
    }

    /// The shared configuration.
    pub closed spec fn config(&self) -> C {
        *self.configure
    }

    /// A pipeline over `configure` that has combined nothing yet.
    pub fn with_config(configure: C) -> (r: Self)
        ensures
            r.state() == Ok::<_, StartError>(empty_view::<X, R, G, S>()),
            r.config() == configure,
    {
        ServerPrepare { configure: Arc::new(configure), state: Ok(Effect::new()) }
    }

    /// The shared configuration, to hand to each preparer.
    pub fn configure(&self) -> (r: &Arc<C>)
        ensures
            **r == self.config(),
    {
        &self.configure
    }

    /// Records the outcome of logger initialisation; a failure stops the
    /// pipeline before any preparer runs.
    pub fn init_logger(self, outcome: Result<(), String>) -> (r: Self)
        ensures
            r.state() == logger_step(self.state(), outcome),
            r.config() == self.config(),
    {
        let state = match self.state {
            Err(e) => Err(e),
            Ok(a) => match outcome {
                Err(m) => Err(StartError::LoggerInit(m)),
                Ok(_) => Ok(a),
            },
        };
        ServerPrepare { configure: self.configure, state }
    }

    /// Whether the next step is to be run: only while nothing has failed.
    pub fn should_run_next(&self) -> (r: bool)
        ensures
            r == self.state() is Ok,
    {
        self.state.is_ok()
    }

    /// Records the outcome of the next sequential step.
    pub fn append(self, outcome: Result<Effect<X, R, G, S>, PrepareError>) -> (r: Self)
        ensures
            r.state() == append_step(self.state(), outcome_view(outcome)),
            r.config() == self.config(),
    {
        let state = match self.state {
            Err(e) => Err(e),
            Ok(a) => match outcome {
                Err(e) => Err(StartError::Prepare(e)),
                Ok(b) => Ok(a.combine(b)),
            },
        };
        ServerPrepare { configure: self.configure, state }
    }

    /// Records a whole concurrent set as one sequential step.
    pub fn append_concurrent(self, set: ConcurrentPrepareSet<X, R, G, S>) -> (r: Self)
        ensures
            r.state() == append_step(self.state(), set.outcome()),
            r.config() == self.config(),
    {
        self.append(set.to_prepared_effect())
    }

    /// Ends accumulation: the fully combined effect, or the first error.
    pub fn prepare_start(self) -> (r: Result<Effect<X, R, G, S>, StartError>)
        ensures
            state_view(r) == self.state(),
    {
        self.state
    }
}

/// A stopped pipeline stays stopped, with the same error, whatever the later
/// steps would report.
pub proof fn lemma_stopped_stays_stopped<X, R, G, S>(
    e: StartError,
    s: Seq<Result<EffectView<X, R, G, S>, PrepareError>>,
)
    ensures
        run_steps(Err(e), s) == Err::<EffectView<X, R, G, S>, StartError>(e),
    decreases s.len(),
{
    if s.len() > 0 {
        lemma_stopped_stays_stopped(e, s.drop_last());
    }
}

/// Sequential steps fail fast: when step `i` is the first to fail, the
/// pipeline reports its error, and from then on it asks for no further step.
pub proof fn lemma_fail_fast<X, R, G, S>(
    a: EffectView<X, R, G, S>,
    s: Seq<Result<EffectView<X, R, G, S>, PrepareError>>,
    i: int,
)
    requires
        0 <= i < s.len(),
        s[i] is Err,
        forall|j: int| 0 <= j < i ==> s[j] is Ok,
    ensures
        forall|n: int|
            i < n <= s.len() ==> #[trigger] run_steps(Ok(a), s.take(n)) == Err::<
                EffectView<X, R, G, S>,
                StartError,
            >(StartError::Prepare(s[i]->Err_0)),
        run_steps(Ok(a), s) == Err::<EffectView<X, R, G, S>, StartError>(
            StartError::Prepare(s[i]->Err_0),
        ),
{
    assert forall|n: int| i < n <= s.len() implies #[trigger] run_steps(Ok(a), s.take(n)) == Err::<
        EffectView<X, R, G, S>,
        StartError,
    >(StartError::Prepare(s[i]->Err_0)) by {
        lemma_run_prefix(a, s, i, n);
    }
    assert(s.take(s.len() as int) =~= s);
}

proof fn lemma_run_prefix<X, R, G, S>(
    a: EffectView<X, R, G, S>,
    s: Seq<Result<EffectView<X, R, G, S>, PrepareError>>,
    i: int,
    n: int,
)
    requires
        0 <= i < s.len(),
        s[i] is Err,
        forall|j: int| 0 <= j < i ==> s[j] is Ok,
        0 <= n <= s.len(),
    ensures
        n <= i ==> run_steps(Ok(a), s.take(n)) is Ok,
        n > i ==> run_steps(Ok(a), s.take(n)) == Err::<EffectView<X, R, G, S>, StartError>(
            StartError::Prepare(s[i]->Err_0),
        ),
    decreases n,
{
    if n > 0 {
        lemma_run_prefix(a, s, i, n - 1);
        assert(s.take(n).drop_last() =~= s.take(n - 1));
    }
}

/// A failed logger initialisation stops the pipeline before any preparer:
/// whatever steps follow, the pipeline reports the logger's error.
pub proof fn lemma_logger_failure_short_circuits<X, R, G, S>(
    a: EffectView<X, R, G, S>,
    msg: String,
    s: Seq<Result<EffectView<X, R, G, S>, PrepareError>>,
)
    ensures
        logger_step(Ok(a), Err(msg)) is Err,
        run_steps(logger_step(Ok(a), Err(msg)), s) == Err::<EffectView<X, R, G, S>, StartError>(
            StartError::LoggerInit(msg),
        ),
{
    lemma_stopped_stays_stopped(StartError::LoggerInit(msg), s);
}

} // verus!
