mod decorator;
mod events;
mod laws;

pub use decorator::TraceStorage;
pub use events::{completed, event_after, Completion, Dispatch, Outcome, Pending, Request, TraceEvent};
pub use laws::{lemma_request_only_tracing, lemma_transparency, lemma_update_traced_on_success};
