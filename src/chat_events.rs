use vstd::prelude::*;
use std::sync::Arc;
use crate::runtime::{ChatEventsArgs, Runtime};
use crate::types::{ActionContext, ChatEventsResponse, EventsSelectionCriteria, InternalError};

verus! {

/// Builds and submits the request for events of a conversation.
pub struct ChatEventsBuilder<R> {
    runtime: Arc<R>,
    args: ChatEventsArgs,
}

impl<R: Runtime> ChatEventsBuilder<R> {
    /// The runtime that the request goes to.
    pub closed spec fn spec_runtime(&self) -> R {
        *self.runtime
    }

    /// The request that submitting this builder hands to the runtime.
    pub closed spec fn spec_args(&self) -> ChatEventsArgs {
        self.args
    }

    pub fn new(runtime: Arc<R>, context: ActionContext, events: EventsSelectionCriteria) -> (r: Self)
        ensures
            r.spec_runtime() == *runtime,
            r.spec_args() == (ChatEventsArgs { context, events }),
    {
        ChatEventsBuilder { runtime, args: ChatEventsArgs { context, events } }
    }

    /// The request as it stands.
    pub fn args(&self) -> (r: &ChatEventsArgs)
        ensures
            *r == self.spec_args(),
    {
        &self.args
    }

    /// Fetches the selected events. A selection that can pick out no event
    /// yields no event, and no error, without a round trip to the runtime;
    /// any other selection yields whatever the runtime reports for exactly
    /// this request, its errors included.
    pub fn execute(self) -> (r: Result<ChatEventsResponse, InternalError>)
        ensures
            self.spec_args().events.selects_nothing() ==> (r matches Ok(resp) && resp.events@.len()
                == 0),
            !self.spec_args().events.selects_nothing() ==> call_ensures(
                R::chat_events,
                (&self.spec_runtime(), &self.spec_args()),
                r,
            ),
    {
        if self.args.events.is_empty() {
            Ok(ChatEventsResponse::empty())
        } else {
            self.runtime.chat_events(&self.args)
        }
    }
}

} // verus!
