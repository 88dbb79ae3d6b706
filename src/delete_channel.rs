use vstd::prelude::*;
use std::sync::Arc;
use crate::runtime::{DeleteChannelArgs, Runtime};
use crate::types::{ActionContext, ChannelId, InternalError};

verus! {

/// Builds and submits the deletion of a channel.
pub struct DeleteChannelBuilder<R> {
    runtime: Arc<R>,
    args: DeleteChannelArgs,
}

impl<R: Runtime> DeleteChannelBuilder<R> {
    /// The runtime that the request goes to.
    pub closed spec fn spec_runtime(&self) -> R {
        *self.runtime
    }

    /// The request that submitting this builder hands to the runtime.
    pub closed spec fn spec_args(&self) -> DeleteChannelArgs {
        self.args
    }

    pub fn new(runtime: Arc<R>, context: ActionContext, channel_id: ChannelId) -> (r: Self)
        ensures
            r.spec_runtime() == *runtime,
            r.spec_args() == (DeleteChannelArgs { context, channel_id }),
    {
        DeleteChannelBuilder { runtime, args: DeleteChannelArgs { context, channel_id } }
    }

    /// The request as it stands.
    pub fn args(&self) -> (r: &DeleteChannelArgs)
        ensures
            *r == self.spec_args(),
    {
        &self.args
    }

    /// Submits the request and waits for the outcome, which is whatever the
    /// runtime reports for exactly this request, its errors included.
    pub fn execute(self) -> (r: Result<(), InternalError>)
        ensures
            call_ensures(R::delete_channel, (&self.spec_runtime(), &self.spec_args()), r),
    {
        self.runtime.delete_channel(&self.args)
    }
}

} // verus!
