use std::fmt::Debug;
use std::sync::Arc;
use vstd::prelude::*;

use crate::events::{completed, Completion, Dispatch, Outcome, Pending, Request, TraceEvent};

verus! {

/// Relies on std's `format!` with `{:#?}`: the pretty-printed `Debug`
/// rendering of a value. What it holds depends on the value's own `Debug`
/// impl, so nothing is stated of it.
#[verifier::external_body]
fn render<D: Debug>(dialogue: &D) -> (r: String) {
    format!("{:#?}", dialogue)
}

/// A dialogue storage wrapper that reports every action performed on an
/// underlying storage as a trace event, and otherwise forwards each action
/// unchanged.
pub struct TraceStorage<S> {
    inner: Arc<S>,
}

impl<S> TraceStorage<S> {
    /// The shared handle to the wrapped storage.
    pub closed spec fn handle(self) -> Arc<S> {
        self.inner
    }

    /// The decorator that wraps `inner`.
    pub closed spec fn wrapping(inner: Arc<S>) -> Self {
        TraceStorage { inner }
    }

    /// Wraps a shared storage handle; the result can stand wherever the inner
    /// storage was used.
    #[must_use]
    pub fn new(inner: Arc<S>) -> (r: Arc<Self>)
        ensures
            *r == Self::wrapping(inner),
            r.handle() == inner,
    {
        Arc::new(TraceStorage { inner })
    }

    /// Unwrapping a decorator gives back the very handle it was built from.
    pub proof fn lemma_unwrap_round_trip(inner: Arc<S>)
        ensures
            Self::wrapping(inner).handle() == inner,
    {
    }

    /// Gives back the shared handle to the wrapped storage.
    pub fn into_inner(self) -> (r: Arc<S>)
        ensures
            r == self.handle(),
    {
        self.inner
    }

    /// Borrows the shared handle to the wrapped storage.
    pub fn inner(&self) -> (r: &Arc<S>)
        ensures
            *r == self.handle(),
    {
        &self.inner
    }

    /// Starts a removal: reports the request, then hands it on unchanged.
    pub fn remove_dialogue<D>(&self, chat_id: i64) -> (r: Dispatch<D>)
        ensures
            r.before == Some(TraceEvent::Removing { chat_id }),
            r.forward == (Request::<D>::Remove { chat_id }),
            r.pending == (Pending::Remove { chat_id }),
    {
        Dispatch {
            before: Some(TraceEvent::Removing { chat_id }),
            forward: Request::Remove { chat_id },
            pending: Pending::Remove { chat_id },
        }
    }

    /// Starts an update: renders the new state while it is still at hand,
    /// reports nothing yet, and hands the state on unchanged.
    pub fn update_dialogue<D: Debug>(&self, chat_id: i64, dialogue: D) -> (r: Dispatch<D>)
        ensures
            r.before is None,
            r.forward == (Request::Update { chat_id, dialogue }),
            r.pending is Update,
            r.pending->Update_chat_id == chat_id,
    {
        let to = render(&dialogue);
        Dispatch {
            before: None,
            forward: Request::Update { chat_id, dialogue },
            pending: Pending::Update { chat_id, to },
        }
    }

    /// Starts a fetch: reports the request, then hands it on unchanged.
    pub fn get_dialogue<D>(&self, chat_id: i64) -> (r: Dispatch<D>)
        ensures
            r.before == Some(TraceEvent::Requested { chat_id }),
            r.forward == (Request::<D>::Get { chat_id }),
            r.pending == (Pending::Get { chat_id }),
    {
        Dispatch {
            before: Some(TraceEvent::Requested { chat_id }),
            forward: Request::Get { chat_id },
            pending: Pending::Get { chat_id },
        }
    }

    /// Finishes an operation once the wrapped storage has answered: the
    /// answer goes back unchanged, and a successful update is reported.
    pub fn complete<D, E>(&self, pending: Pending, outcome: Outcome<D, E>) -> (r: Completion<D, E>)
        ensures
            r == completed(pending, outcome),
    {
        let after = match pending {
            Pending::Update { chat_id, to } => match outcome {
                Outcome::Updated(Ok(())) => Some(TraceEvent::Updated { chat_id, to }),
                _ => None,
            },
            _ => None,
        };
        Completion { result: outcome, after }
    }
}

} // verus!
