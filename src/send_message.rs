use vstd::prelude::*;
use std::sync::Arc;
use crate::runtime::{Runtime, SendMessageArgs};
use crate::types::{
    ActionContext, InternalError, Message, MessageContentInitial, SendMessageReceipt,
    SuccessResult,
};

verus! {

/// The message that `args` describes, under the id `id`.
pub open spec fn spec_message(args: SendMessageArgs, id: u64) -> Message {
    Message { id, content: args.content, finalised: args.finalised }
}

/// The message that the bot will post for `args`, before the platform has
/// acknowledged it: it carries the id that the context reserved for the reply.
pub open spec fn spec_pending_message(args: SendMessageArgs) -> Message {
    spec_message(args, args.context.message_id)
}

/// What the caller gets back once the runtime reported `outcome` for `args`.
pub open spec fn spec_send_result(
    args: SendMessageArgs,
    outcome: Result<SendMessageReceipt, InternalError>,
) -> Result<SuccessResult, InternalError> {
    match outcome {
        Ok(receipt) => Ok(SuccessResult { message: Some(spec_message(args, receipt.message_id)) }),
        Err(e) => Err(e),
    }
}

/// Turns the runtime's report on a sent message into the caller's result:
/// on success the message as the platform filed it, on failure the runtime's
/// error unchanged.
pub fn send_result(args: SendMessageArgs, outcome: Result<SendMessageReceipt, InternalError>) -> (r:
    Result<SuccessResult, InternalError>)
    ensures
        r == spec_send_result(args, outcome),
{
    match outcome {
        Ok(receipt) => Ok(
            SuccessResult {
                message: Some(
                    Message { id: receipt.message_id, content: args.content, finalised: args.finalised },
                ),
            },
        ),
        Err(e) => Err(e),
    }
}

/// Builds and submits a message.
pub struct SendMessageBuilder<R> {
    runtime: Arc<R>,
    args: SendMessageArgs,
}

impl<R: Runtime> SendMessageBuilder<R> {
    /// The runtime that the request goes to.
    pub closed spec fn spec_runtime(&self) -> R {
        *self.runtime
    }

    /// The request that submitting this builder hands to the runtime.
    pub closed spec fn spec_args(&self) -> SendMessageArgs {
        self.args
    }

    /// A builder for a finalised message without block-level markdown.
    pub fn new(runtime: Arc<R>, context: ActionContext, content: MessageContentInitial) -> (r: Self)
        ensures
            r.spec_runtime() == *runtime,
            r.spec_args() == (SendMessageArgs {
                context,
                content,
                block_level_markdown: false,
                finalised: true,
            }),
    {
        SendMessageBuilder {
            runtime,
            args: SendMessageArgs { context, content, block_level_markdown: false, finalised: true },
        }
    }

    /// The request as it stands.
    pub fn args(&self) -> (r: &SendMessageArgs)
        ensures
            *r == self.spec_args(),
    {
        &self.args
    }

    /// Sets whether the text is rendered as block-level markdown.
    pub fn with_block_level_markdown(self, block_level_markdown: bool) -> (r: Self)
        ensures
            r.spec_runtime() == self.spec_runtime(),
            r.spec_args() == (SendMessageArgs { block_level_markdown, ..self.spec_args() }),
    {
        let mut args = self.args;
        args.block_level_markdown = block_level_markdown;
        SendMessageBuilder { runtime: self.runtime, args }
    }

    /// Sets whether the message is complete or a draft still being streamed.
    pub fn with_finalised(self, finalised: bool) -> (r: Self)
        ensures
            r.spec_runtime() == self.spec_runtime(),
            r.spec_args() == (SendMessageArgs { finalised, ..self.spec_args() }),
    {
        let mut args = self.args;
        args.finalised = finalised;
        SendMessageBuilder { runtime: self.runtime, args }
    }

    /// Submits the message and waits for the platform's acknowledgment. The
    /// result follows from what the runtime reports for exactly this request.
    pub fn execute(self) -> (r: Result<SuccessResult, InternalError>)
        ensures
            exists|outcome: Result<SendMessageReceipt, InternalError>|
                {
                    &&& call_ensures(
                        R::send_message,
                        (&self.spec_runtime(), &self.spec_args()),
                        outcome,
                    )
                    &&& r == spec_send_result(self.spec_args(), outcome)
                },
    {
        let outcome = self.runtime.send_message(&self.args);
        send_result(self.args, outcome)
    }

    /// Hands the message off for sending and returns at once, without waiting
    /// for the platform. The result holds the message as it will be posted.
    pub fn execute_then_return_message(self) -> (r: SuccessResult)
        ensures
            call_ensures(R::spawn_send_message, (&self.spec_runtime(), &self.spec_args()), ()),
            r == (SuccessResult { message: Some(spec_pending_message(self.spec_args())) }),
    {
        self.runtime.spawn_send_message(&self.args);
        let message = Message {
            id: self.args.context.message_id,
            content: self.args.content,
            finalised: self.args.finalised,
        };
        SuccessResult { message: Some(message) }
    }
}

} // verus!
