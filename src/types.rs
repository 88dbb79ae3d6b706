use vstd::prelude::*;

verus! {

/// Identifier of a channel inside a community.
#[derive(Clone, Copy, Debug, PartialEq, Eq, Hash, Structural)]
pub struct ChannelId(pub u32);

/// Plain text content of a message.
#[derive(Clone, Debug, PartialEq, Eq)]
pub struct TextContent {
    pub text: String,
}

/// The content of a message that is about to be sent. New kinds of content
/// are added as new variants.
#[derive(Clone, Debug, PartialEq, Eq)]
pub enum MessageContentInitial {
    Text(TextContent),
}

impl MessageContentInitial {
    /// Wraps `text` as text content.
    pub fn text(text: String) -> (r: MessageContentInitial)
        ensures
            r == (MessageContentInitial::Text(TextContent { text })),
    {
        MessageContentInitial::Text(TextContent { text })
    }
}


/// Who is acting and in which conversation: the canonical context that every
/// action carries.
#[derive(Clone, Debug, PartialEq, Eq)]
pub struct ActionContext {
    /// The bot performing the action.
    pub bot_id: String,
    /// The user on whose behalf the bot acts.
    pub initiator: String,
    /// The conversation the action is aimed at.
    pub chat_id: String,
    /// The thread within the conversation, if any.
    pub thread: Option<u32>,
    /// The id reserved for the message the bot posts in reply.
    pub message_id: u64,
}

/// A message that was sent, or that has been handed off for sending.
#[derive(Clone, Debug, PartialEq, Eq)]
pub struct Message {
    pub id: u64,
    pub content: MessageContentInitial,
    pub finalised: bool,
}

/// What the caller gets back once an action has been carried out.
#[derive(Clone, Debug, PartialEq, Eq)]
pub struct SuccessResult {
    pub message: Option<Message>,
}

/// A failure that this layer does not recover from.
#[derive(Clone, Debug, PartialEq, Eq)]
pub struct InternalError {
    pub reason: String,
}

/// The platform's acknowledgment of a sent message.
#[derive(Clone, Copy, Debug, PartialEq, Eq, Hash, Structural)]
pub struct SendMessageReceipt {
    pub message_id: u64,
    pub event_index: u32,
}

/// A summary of a conversation.
#[derive(Clone, Debug, PartialEq, Eq)]
pub struct ChatDetails {
    pub name: String,
    pub is_public: bool,
    pub latest_event_index: u32,
}

/// One event of a conversation's history.
#[derive(Clone, Copy, Debug, PartialEq, Eq, Hash, Structural)]
pub struct ChatEvent {
    pub index: u32,
    pub timestamp: u64,
}

/// The events that a selection picked out.
#[derive(Clone, Debug, PartialEq, Eq)]
pub struct ChatEventsResponse {
    pub events: Vec<ChatEvent>,
}

impl ChatEventsResponse {
    /// A response that holds no event.
    pub fn empty() -> (r: ChatEventsResponse)
        ensures
            r.events@.len() == 0,
    {
        ChatEventsResponse { events: Vec::new() }
    }
}

/// Which events of a conversation to fetch.
#[derive(Clone, Debug, PartialEq, Eq)]
pub enum EventsSelectionCriteria {
    /// Up to `max_events` events (of which at most `max_messages` messages),
    /// starting at `start_index` and walking forwards or backwards.
    Page { start_index: u32, ascending: bool, max_messages: u32, max_events: u32 },
    /// Exactly the events at these indexes.
    ByIndex { events: Vec<u32> },
    /// Up to `max_events` events (of which at most `max_messages` messages)
    /// around `mid_point`.
    Window { mid_point: u32, max_messages: u32, max_events: u32 },
}

impl EventsSelectionCriteria {
    /// The selection can pick out no event at all.
    pub open spec fn selects_nothing(&self) -> bool {
        match self {
            EventsSelectionCriteria::Page { max_events, .. } => *max_events == 0,
            EventsSelectionCriteria::ByIndex { events } => events@.len() == 0,
            EventsSelectionCriteria::Window { max_events, .. } => *max_events == 0,
        }
    }

    /// Tells whether the selection can pick out no event at all.
    pub fn is_empty(&self) -> (r: bool)
        ensures
            r == self.selects_nothing(),
    {
        match self {
            EventsSelectionCriteria::Page { max_events, .. } => *max_events == 0,
            EventsSelectionCriteria::ByIndex { events } => events.len() == 0,
            EventsSelectionCriteria::Window { max_events, .. } => *max_events == 0,
        }
    }
}

/// A context that can always be turned into the canonical [`ActionContext`].
pub trait IntoActionContext: Sized {
    /// The canonical context that this context stands for.
    spec fn canonical(&self) -> ActionContext;

    /// Converts into the canonical context; the conversion never fails.
    fn into_action_context(self) -> (r: ActionContext)
        ensures
            r == self.canonical(),
    ;
}

impl IntoActionContext for ActionContext {
    open spec fn canonical(&self) -> ActionContext {
        *self
    }

    fn into_action_context(self) -> (r: ActionContext) {
        self
    }
}

/// The context of a bot command: the command's name and the scope in which
/// it was issued.
#[derive(Clone, Debug, PartialEq, Eq)]
pub struct BotCommandContext {
    pub command_name: String,
    pub scope: ActionContext,
}

impl IntoActionContext for BotCommandContext {
    open spec fn canonical(&self) -> ActionContext {
        self.scope
    }

    fn into_action_context(self) -> (r: ActionContext) {
        self.scope
    }
}

} // verus!
