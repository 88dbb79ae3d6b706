use vstd::prelude::*;
use std::sync::Arc;
use crate::runtime::{CreateChannelArgs, Runtime};
use crate::types::{ActionContext, ChannelId, InternalError};

verus! {

/// Builds and submits the creation of a channel.
pub struct CreateChannelBuilder<R> {
    runtime: Arc<R>,
    args: CreateChannelArgs,
}

impl<R: Runtime> CreateChannelBuilder<R> {
    /// The runtime that the request goes to.
    pub closed spec fn spec_runtime(&self) -> R {
        *self.runtime
    }

    /// The request that submitting this builder hands to the runtime.
    pub closed spec fn spec_args(&self) -> CreateChannelArgs {
        self.args
    }

    pub fn new(runtime: Arc<R>, context: ActionContext, name: String, is_public: bool) -> (r: Self)
        ensures
            r.spec_runtime() == *runtime,
            r.spec_args() == (CreateChannelArgs { context, name, is_public }),
    {
        CreateChannelBuilder { runtime, args: CreateChannelArgs { context, name, is_public } }
    }

    /// The request as it stands.
    pub fn args(&self) -> (r: &CreateChannelArgs)
        ensures
            *r == self.spec_args(),
    {
        &self.args
    }

    /// Submits the request and waits for the outcome, which is whatever the
    /// runtime reports for exactly this request, its errors included.
    pub fn execute(self) -> (r: Result<ChannelId, InternalError>)
        ensures
            call_ensures(R::create_channel, (&self.spec_runtime(), &self.spec_args()), r),
    {
        self.runtime.create_channel(&self.args)
    }
}

} // verus!
