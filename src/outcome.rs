use vstd::prelude::*;

verus! {

/// How a worker thread's run of a job ended, as the awaiting task learns it:
/// the operation's value, the payload of a panic raised inside it, or
/// notice that the worker was torn down before the job started.
pub enum Completion<T, P> {
    Returned(T),
    Panicked(P),
    Cancelled,
}

/// What the awaiting task observes after the thread hop: `Some(Ok(v))` to
/// return `v`, `Some(Err(p))` to resume unwinding with the same payload `p`,
/// `None` when the operation never ran.
pub open spec fn settled<T, P>(c: Completion<T, P>) -> Option<Result<T, P>> {
    match c {
        Completion::Returned(v) => Some(Ok(v)),
        Completion::Panicked(p) => Some(Err(p)),
        Completion::Cancelled => None,
    }
}

/// What a worker reports for a call that, run directly, would have returned
/// `Ok(v)` or panicked with payload `p` (`Err(p)`).
pub open spec fn completion_of<T, P>(direct: Result<T, P>) -> Completion<T, P> {
    match direct {
        Ok(v) => Completion::Returned(v),
        Err(p) => Completion::Panicked(p),
    }
}

/// Turns a worker's completion into what the awaiting task observes. A
/// panic is neither retried nor replaced: its payload comes back as it was.
pub fn settle<T, P>(c: Completion<T, P>) -> (r: Option<Result<T, P>>)
    ensures
        r == settled(c),
{
    match c {
        Completion::Returned(v) => Some(Ok(v)),
        Completion::Panicked(p) => Some(Err(p)),
        Completion::Cancelled => None,
    }
}

/// Moving a call to a worker and back is transparent: the awaiting task
/// observes exactly the value, or exactly the panic payload, that a direct
/// call would have produced.
pub proof fn lemma_worker_round_trip<T, P>(direct: Result<T, P>)
    ensures
        settled(completion_of(direct)) == Some(direct),
{
}

} // verus!
