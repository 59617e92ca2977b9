use vstd::prelude::*;

use crate::events::{completed, event_after, Outcome, Pending, TraceEvent};

verus! {

/// The decorator is transparent: whatever the wrapped storage answers to an
/// operation, the caller gets exactly that answer back, value for value and
/// error for error.
pub proof fn lemma_transparency<D, E>(pending: Pending, outcome: Outcome<D, E>)
    ensures
        completed(pending, outcome).result == outcome,
{
}

/// An update is reported once, after the wrapped storage has answered, and
/// only when it succeeded: the event names the conversation and carries the
/// state rendered before it was handed on. A failed update is reported not
/// at all, and its error goes back unchanged.
pub proof fn lemma_update_traced_on_success<D, E>(chat_id: i64, to: String, answer: Result<(), E>)
    ensures
        answer is Ok ==> completed::<D, E>(Pending::Update { chat_id, to }, Outcome::Updated(answer)).after
            == Some(TraceEvent::Updated { chat_id, to }),
        answer is Err ==> completed::<D, E>(Pending::Update { chat_id, to }, Outcome::Updated(answer)).after
            is None,
        completed::<D, E>(Pending::Update { chat_id, to }, Outcome::Updated(answer)).result
            == Outcome::<D, E>::Updated(answer),
{
}

/// Removals and fetches are reported on their request only: whatever the
/// wrapped storage answers, nothing more is reported after it.
pub proof fn lemma_request_only_tracing<D, E>(chat_id: i64, outcome: Outcome<D, E>)
    ensures
        event_after(Pending::Remove { chat_id }, outcome) is None,
        event_after(Pending::Get { chat_id }, outcome) is None,
{
}

} // verus!
