use vstd::prelude::*;
use crate::types::{
    ActionContext, ChannelId, ChatDetails, ChatEventsResponse, EventsSelectionCriteria,
    InternalError, MessageContentInitial, SendMessageReceipt,
};

verus! {

/// The request to post a message. `block_level_markdown` asks the platform
/// to render the text as block-level markdown; `finalised` marks the message
/// as complete rather than as a draft that is still being streamed.
#[derive(Clone, Debug, PartialEq, Eq)]
pub struct SendMessageArgs {
    pub context: ActionContext,
    pub content: MessageContentInitial,
    pub block_level_markdown: bool,
    pub finalised: bool,
}

/// The request to create a channel.
#[derive(Clone, Debug, PartialEq, Eq)]
pub struct CreateChannelArgs {
    pub context: ActionContext,
    pub name: String,
    pub is_public: bool,
}

/// The request to delete a channel.
#[derive(Clone, Debug, PartialEq, Eq)]
pub struct DeleteChannelArgs {
    pub context: ActionContext,
    pub channel_id: ChannelId,
}

/// The request for a summary of a conversation.
#[derive(Clone, Debug, PartialEq, Eq)]
pub struct ChatDetailsArgs {
    pub context: ActionContext,
}

/// The request for events of a conversation.
#[derive(Clone, Debug, PartialEq, Eq)]
pub struct ChatEventsArgs {
    pub context: ActionContext,
    pub events: EventsSelectionCriteria,
}

/// How actions physically reach the platform: one operation per kind of
/// action. A single runtime is shared by every client that a factory builds,
/// so implementations must tolerate concurrent use. Failures are reported as
/// [`InternalError`]; retrying, if any, is the implementation's business.
pub trait Runtime {
    /// Posts a message and waits for the platform's acknowledgment.
    fn send_message(&self, args: &SendMessageArgs) -> Result<SendMessageReceipt, InternalError>;

    /// Hands a message off for posting and returns at once, without waiting
    /// for the platform.
    fn spawn_send_message(&self, args: &SendMessageArgs);

    /// Creates a channel and returns its id.
    fn create_channel(&self, args: &CreateChannelArgs) -> Result<ChannelId, InternalError>;

    /// Deletes a channel.
    fn delete_channel(&self, args: &DeleteChannelArgs) -> Result<(), InternalError>;

    /// Fetches a summary of a conversation.
    fn chat_details(&self, args: &ChatDetailsArgs) -> Result<ChatDetails, InternalError>;

    /// Fetches the events that a selection picks out.
    fn chat_events(&self, args: &ChatEventsArgs) -> Result<ChatEventsResponse, InternalError>;
}

} // verus!
