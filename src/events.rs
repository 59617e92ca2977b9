use vstd::prelude::*;

verus! {

/// A diagnostic event reported at trace level by the decorator.
#[derive(Clone, Debug, PartialEq, Eq)]
pub enum TraceEvent {
    /// A removal of the dialogue of `chat_id` was requested.
    Removing { chat_id: i64 },
    /// The dialogue of `chat_id` was stored; `to` renders the new state.
    Updated { chat_id: i64, to: String },
    /// The dialogue of `chat_id` was requested.
    Requested { chat_id: i64 },
}

/// An operation of the persistence interface, as handed to the wrapped
/// storage.
#[derive(Clone, Debug, PartialEq, Eq)]
pub enum Request<D> {
    Remove { chat_id: i64 },
    Update { chat_id: i64, dialogue: D },
    Get { chat_id: i64 },
}

/// What the decorator keeps of an operation while the wrapped storage works
/// on it.
#[derive(Clone, Debug, PartialEq, Eq)]
pub enum Pending {
    Remove { chat_id: i64 },
    /// `to` is the state rendered before it was handed on.
    Update { chat_id: i64, to: String },
    Get { chat_id: i64 },
}

/// What the wrapped storage answered to an operation.
#[derive(Debug, PartialEq, Eq)]
pub enum Outcome<D, E> {
    Removed(Result<(), E>),
    Updated(Result<(), E>),
    Fetched(Result<Option<D>, E>),
}

/// The first half of an operation: the event reported before delegating
/// (if any), the request for the wrapped storage, and what to remember
/// until it answers.
#[derive(Debug)]
pub struct Dispatch<D> {
    pub before: Option<TraceEvent>,
    pub forward: Request<D>,
    pub pending: Pending,
}

/// The second half of an operation: what the caller gets back and the
/// event reported after the wrapped storage answered (if any).
#[derive(Debug)]
pub struct Completion<D, E> {
    pub result: Outcome<D, E>,
    pub after: Option<TraceEvent>,
}

/// The event reported once the wrapped storage has answered: only a
/// successful update is reported on its outcome.
pub open spec fn event_after<D, E>(pending: Pending, outcome: Outcome<D, E>) -> Option<TraceEvent> {
    match pending {
        Pending::Update { chat_id, to } => match outcome {
            Outcome::Updated(Ok(())) => Some(TraceEvent::Updated { chat_id, to }),
            _ => None,
        },
        _ => None,
    }
}

/// The completion of an operation: the answer of the wrapped storage,
/// unchanged, and the event reported after it.
pub open spec fn completed<D, E>(pending: Pending, outcome: Outcome<D, E>) -> Completion<D, E> {
    Completion { result: outcome, after: event_after(pending, outcome) }
}

} // verus!
