use vstd::prelude::*;
use std::sync::Arc;
use crate::chat_details::ChatDetailsBuilder;
use crate::chat_events::ChatEventsBuilder;
use crate::create_channel::CreateChannelBuilder;
use crate::delete_channel::DeleteChannelBuilder;
use crate::runtime::{
    ChatDetailsArgs, ChatEventsArgs, CreateChannelArgs, DeleteChannelArgs, Runtime, SendMessageArgs,
};
use crate::send_message::SendMessageBuilder;
use crate::types::{
    ActionContext, ChannelId, EventsSelectionCriteria, IntoActionContext, MessageContentInitial,
    TextContent,
};

verus! {

/// Relies on `Arc::clone`: the new handle points at the same runtime.
#[verifier::external_body]
fn share<R>(runtime: &Arc<R>) -> (r: Arc<R>)
    ensures
        r == *runtime,
{
    Arc::clone(runtime)
}

/// Owns the runtime that every client it builds shares.
pub struct ClientFactory<R> {
    runtime: Arc<R>,
}

impl<R: Runtime> ClientFactory<R> {
    /// The shared runtime.
    pub closed spec fn spec_runtime(&self) -> R {
        *self.runtime
    }

    /// A factory whose clients all share `runtime`.
    pub fn new(runtime: R) -> (r: Self)
        ensures
            r.spec_runtime() == runtime,
    {
        ClientFactory { runtime: Arc::new(runtime) }
    }

    /// A client for `context` that shares this factory's runtime.
    pub fn build<C>(&self, context: C) -> (r: Client<R, C>)
        ensures
            r.spec_runtime() == self.spec_runtime(),
            r.spec_context() == context,
    {
        Client::new(share(&self.runtime), context)
    }
}

/// The entry point of one action: a runtime and the context to act in. Each
/// action method consumes the client, so a client starts at most one action.
pub struct Client<R, C = ActionContext> {
    runtime: Arc<R>,
    context: C,
}

impl<R, C> Client<R, C> {
    /// The runtime that this client's action goes to.
    pub closed spec fn spec_runtime(&self) -> R {
        *self.runtime
    }

    /// The context this client was made with, before any conversion.
    pub closed spec fn spec_context(&self) -> C {
        self.context
    }

    /// A client that acts in `context` through `runtime`.
    pub fn new(runtime: Arc<R>, context: C) -> (r: Self)
        ensures
            r.spec_runtime() == *runtime,
            r.spec_context() == context,
    {
        Client { runtime, context }
    }

    /// The context this client was made with.
    pub fn context(&self) -> (r: &C)
        ensures
            *r == self.spec_context(),
    {
        &self.context
    }
}

impl<R: Runtime, C: IntoActionContext> Client<R, C> {
    /// The context that every builder of this client acts in.
    pub open spec fn spec_action_context(&self) -> ActionContext {
        self.spec_context().canonical()
    }

    /// Starts sending `content`.
    pub fn send_message(self, content: MessageContentInitial) -> (r: SendMessageBuilder<R>)
        ensures
            r.spec_runtime() == self.spec_runtime(),
            r.spec_args() == (SendMessageArgs {
                context: self.spec_action_context(),
                content,
                block_level_markdown: false,
                finalised: true,
            }),
    {
        let client = self.convert_context();
        SendMessageBuilder::new(client.runtime, client.context, content)
    }

    /// Starts sending `text` as a text message: the same as `send_message`
    /// with text content.
    pub fn send_text_message(self, text: String) -> (r: SendMessageBuilder<R>)
        ensures
            r.spec_runtime() == self.spec_runtime(),
            r.spec_args() == (SendMessageArgs {
                context: self.spec_action_context(),
                content: MessageContentInitial::Text(TextContent { text }),
                block_level_markdown: false,
                finalised: true,
            }),
    {
        self.send_message(MessageContentInitial::Text(TextContent { text }))
    }

    /// Starts creating a channel.
    pub fn create_channel(self, name: String, is_public: bool) -> (r: CreateChannelBuilder<R>)
        ensures
            r.spec_runtime() == self.spec_runtime(),
            r.spec_args() == (CreateChannelArgs {
                context: self.spec_action_context(),
                name,
                is_public,
            }),
    {
        let client = self.convert_context();
        CreateChannelBuilder::new(client.runtime, client.context, name, is_public)
    }

    /// Starts deleting a channel.
    pub fn delete_channel(self, channel_id: ChannelId) -> (r: DeleteChannelBuilder<R>)
        ensures
            r.spec_runtime() == self.spec_runtime(),
            r.spec_args() == (DeleteChannelArgs { context: self.spec_action_context(), channel_id }),
    {
        let client = self.convert_context();
        DeleteChannelBuilder::new(client.runtime, client.context, channel_id)
    }

    /// Starts fetching a summary of the conversation.
    pub fn chat_details(self) -> (r: ChatDetailsBuilder<R>)
        ensures
            r.spec_runtime() == self.spec_runtime(),
            r.spec_args() == (ChatDetailsArgs { context: self.spec_action_context() }),
    {
        let client = self.convert_context();
        ChatDetailsBuilder::new(client.runtime, client.context)
    }

    /// Starts fetching the events that `events` picks out.
    pub fn chat_events(self, events: EventsSelectionCriteria) -> (r: ChatEventsBuilder<R>)
        ensures
            r.spec_runtime() == self.spec_runtime(),
            r.spec_args() == (ChatEventsArgs { context: self.spec_action_context(), events }),
    {
        let client = self.convert_context();
        ChatEventsBuilder::new(client.runtime, client.context, events)
    }

    fn convert_context(self) -> (r: Client<R, ActionContext>)
        ensures
            r.spec_runtime() == self.spec_runtime(),
            r.spec_context() == self.spec_action_context(),
    {
        Client { runtime: self.runtime, context: self.context.into_action_context() }
    }
}

} // verus!
