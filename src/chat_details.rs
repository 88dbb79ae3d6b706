use vstd::prelude::*;
use std::sync::Arc;
use crate::runtime::{ChatDetailsArgs, Runtime};
use crate::types::{ActionContext, ChatDetails, InternalError};

verus! {

/// Builds and submits the request for a summary of a conversation.
pub struct ChatDetailsBuilder<R> {
    runtime: Arc<R>,
    args: ChatDetailsArgs,
}

impl<R: Runtime> ChatDetailsBuilder<R> {
    /// The runtime that the request goes to.
    pub closed spec fn spec_runtime(&self) -> R {
        *self.runtime
    }

    /// The request that submitting this builder hands to the runtime.
    pub closed spec fn spec_args(&self) -> ChatDetailsArgs {
        self.args
    }

    pub fn new(runtime: Arc<R>, context: ActionContext) -> (r: Self)
        ensures
            r.spec_runtime() == *runtime,
            r.spec_args() == (ChatDetailsArgs { context }),
    {
        ChatDetailsBuilder { runtime, args: ChatDetailsArgs { context } }
    }

    /// The request as it stands.
    pub fn args(&self) -> (r: &ChatDetailsArgs)
        ensures
            *r == self.spec_args(),
    {
        &self.args
    }

    /// Submits the request and waits for the outcome, which is whatever the
    /// runtime reports for exactly this request, its errors included.
    pub fn execute(self) -> (r: Result<ChatDetails, InternalError>)
        ensures
            call_ensures(R::chat_details, (&self.spec_runtime(), &self.spec_args()), r),
    {
        self.runtime.chat_details(&self.args)
    }
}

} // verus!
