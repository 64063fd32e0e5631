use vstd::prelude::*;

use crate::effect::Effect;

verus! {

/// A value that a preparer may hand back: an effect, or the outcome of an
/// attempt to build one.
pub trait IntoFallibleEffect<X, R, G, S, E>: Sized {
    /// The outcome this value stands for.
    spec fn fallible(&self) -> Result<Effect<X, R, G, S>, E>;

    fn into_effect(self) -> (r: Result<Effect<X, R, G, S>, E>)
        ensures
            r == self.fallible(),
    ;
}

impl<X, R, G, S, E> IntoFallibleEffect<X, R, G, S, E> for Effect<X, R, G, S> {
    open spec fn fallible(&self) -> Result<Effect<X, R, G, S>, E> {
        Ok(*self)
    }

    fn into_effect(self) -> (r: Result<Effect<X, R, G, S>, E>) {
        Ok(self)
    }
}

impl<X, R, G, S, E> IntoFallibleEffect<X, R, G, S, E> for Result<Effect<X, R, G, S>, E> {
    open spec fn fallible(&self) -> Result<Effect<X, R, G, S>, E> {
        *self
    }

    fn into_effect(self) -> (r: Result<Effect<X, R, G, S>, E>) {
        self
    }
}

/// Turns what a preparer handed back into an outcome: a bare effect always
/// succeeds, an outcome is passed on as it is.
pub fn into_effect<X, R, G, S, E, T: IntoFallibleEffect<X, R, G, S, E>>(this: T) -> (r: Result<
    Effect<X, R, G, S>,
    E,
>)
    ensures
        r == this.fallible(),
{
    this.into_effect()
}

} // verus!
