use vstd::prelude::*;

use crate::fatal::FatalError;

verus! {

/// A payload wrapped as `Error` is an error and not fatal; wrapped as
/// `Fatal` it is fatal and not an error.
pub proof fn lemma_constructor_tags<E>(x: E)
    ensures
        FatalError::Error(x) is Error,
        !(FatalError::Error(x) is Fatal),
        FatalError::Fatal(x) is Fatal,
        !(FatalError::Fatal(x) is Error),
{
}

/// Every error is either non fatal or fatal, and never both.
pub proof fn lemma_tags_exclusive<E>(w: FatalError<E>)
    ensures
        (w is Error) != (w is Fatal),
{
}

/// Unwrapping gives back the payload that either constructor was given.
pub proof fn lemma_inner_of_constructors<E>(x: E)
    ensures
        FatalError::Error(x).inner() == x,
        FatalError::Fatal(x).inner() == x,
{
}

/// Escalating twice is escalating once, and deescalating twice is
/// deescalating once.
pub proof fn lemma_escalation_idempotent<E>(w: FatalError<E>)
    ensures
        w.escalated().escalated() == w.escalated(),
        w.deescalated().deescalated() == w.deescalated(),
{
}

/// Escalating and deescalating, alone or one after the other, change the
/// tag and never the payload.
pub proof fn lemma_escalation_keeps_payload<E>(w: FatalError<E>)
    ensures
        w.escalated().inner() == w.inner(),
        w.deescalated().inner() == w.inner(),
        w.escalated().deescalated() == w.deescalated(),
        w.deescalated().escalated() == w.escalated(),
{
}

} // verus!
