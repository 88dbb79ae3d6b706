use std::cell::RefCell;
use std::sync::Arc;

use oc_bots_sdk::client::{Client, ClientFactory};
use oc_bots_sdk::greet::{greet, greeting};
use oc_bots_sdk::runtime::{
    ChatDetailsArgs, ChatEventsArgs, CreateChannelArgs, DeleteChannelArgs, Runtime,
    SendMessageArgs,
};
use oc_bots_sdk::send_message::send_result;
use oc_bots_sdk::types::{
    ActionContext, BotCommandContext, ChannelId, ChatDetails, ChatEvent, ChatEventsResponse,
    EventsSelectionCriteria, InternalError, Message, MessageContentInitial, SendMessageReceipt,
    SuccessResult, TextContent,
};

/// An in-memory runtime that records every request and either fails all of
/// them or answers with fixed values.
struct FakeRuntime {
    failure: Option<String>,
    calls: RefCell<Vec<String>>,
    sent: RefCell<Vec<SendMessageArgs>>,
}

impl FakeRuntime {
    fn working() -> FakeRuntime {
        FakeRuntime { failure: None, calls: RefCell::new(Vec::new()), sent: RefCell::new(Vec::new()) }
    }

    fn failing(reason: &str) -> FakeRuntime {
        FakeRuntime {
            failure: Some(reason.to_string()),
            calls: RefCell::new(Vec::new()),
            sent: RefCell::new(Vec::new()),
        }
    }

    fn outcome<T>(&self, call: &str, value: T) -> Result<T, InternalError> {
        self.calls.borrow_mut().push(call.to_string());
        match &self.failure {
            Some(reason) => Err(InternalError { reason: reason.clone() }),
            None => Ok(value),
        }
    }
}

impl Runtime for FakeRuntime {
    fn send_message(&self, args: &SendMessageArgs) -> Result<SendMessageReceipt, InternalError> {
        self.sent.borrow_mut().push(args.clone());
        self.outcome("send_message", SendMessageReceipt { message_id: 9001, event_index: 17 })
    }

    fn spawn_send_message(&self, args: &SendMessageArgs) {
        self.calls.borrow_mut().push("spawn_send_message".to_string());
        self.sent.borrow_mut().push(args.clone());
    }

    fn create_channel(&self, args: &CreateChannelArgs) -> Result<ChannelId, InternalError> {
        self.outcome(&format!("create_channel {} {}", args.name, args.is_public), ChannelId(55))
    }

    fn delete_channel(&self, args: &DeleteChannelArgs) -> Result<(), InternalError> {
        self.outcome(&format!("delete_channel {}", args.channel_id.0), ())
    }

    fn chat_details(&self, _args: &ChatDetailsArgs) -> Result<ChatDetails, InternalError> {
        self.outcome(
            "chat_details",
            ChatDetails { name: "general".to_string(), is_public: true, latest_event_index: 40 },
        )
    }

    fn chat_events(&self, args: &ChatEventsArgs) -> Result<ChatEventsResponse, InternalError> {
        let count: u32 = match &args.events {
            EventsSelectionCriteria::ByIndex { events } => events.len() as u32,
            EventsSelectionCriteria::Page { max_events, .. } => *max_events,
            EventsSelectionCriteria::Window { max_events, .. } => *max_events,
        };
        let events = (0..count).map(|i| ChatEvent { index: i, timestamp: 1000 + i as u64 }).collect();
        self.outcome("chat_events", ChatEventsResponse { events })
    }
}

fn scope(initiator: &str) -> ActionContext {
    ActionContext {
        bot_id: "bot-1".to_string(),
        initiator: initiator.to_string(),
        chat_id: "group-7".to_string(),
        thread: Some(3),
        message_id: 424242,
    }
}

fn command(initiator: &str) -> BotCommandContext {
    BotCommandContext { command_name: "greet".to_string(), scope: scope(initiator) }
}

fn client_with(runtime: FakeRuntime) -> (Arc<FakeRuntime>, Client<FakeRuntime, BotCommandContext>) {
    let runtime = Arc::new(runtime);
    let client = Client::new(runtime.clone(), command("abc123"));
    (runtime, client)
}

#[test]
fn client_context_returns_given_context() {
    let client = Client::new(Arc::new(FakeRuntime::working()), command("u1"));
    assert_eq!(client.context(), &command("u1"));
    let plain = Client::new(Arc::new(FakeRuntime::working()), scope("u2"));
    assert_eq!(plain.context(), &scope("u2"));
}

#[test]
fn factory_builds_clients_for_each_context() {
    let factory = ClientFactory::new(FakeRuntime::working());
    let first = factory.build(command("first"));
    let second = factory.build(scope("second"));
    assert_eq!(first.context(), &command("first"));
    assert_eq!(second.context(), &scope("second"));
    let builder = first.chat_details();
    assert_eq!(builder.args().context, scope("first"));
}

#[test]
fn factory_clients_each_start_one_action() {
    let factory = ClientFactory::new(FakeRuntime::working());
    let first = factory.build(scope("a")).send_text_message("one".to_string()).execute_then_return_message();
    let second = factory.build(scope("b")).delete_channel(ChannelId(1)).execute();
    assert_eq!(first.message.map(|m| m.id), Some(424242));
    assert_eq!(second, Ok(()));
}

#[test]
fn every_action_carries_the_canonical_context() {
    let expected = scope("abc123");
    let (_, c) = client_with(FakeRuntime::working());
    assert_eq!(c.send_message(MessageContentInitial::text("x".to_string())).args().context, expected);
    let (_, c) = client_with(FakeRuntime::working());
    assert_eq!(c.send_text_message("x".to_string()).args().context, expected);
    let (_, c) = client_with(FakeRuntime::working());
    assert_eq!(c.create_channel("news".to_string(), true).args().context, expected);
    let (_, c) = client_with(FakeRuntime::working());
    assert_eq!(c.delete_channel(ChannelId(4)).args().context, expected);
    let (_, c) = client_with(FakeRuntime::working());
    assert_eq!(c.chat_details().args().context, expected);
    let (_, c) = client_with(FakeRuntime::working());
    let criteria = EventsSelectionCriteria::ByIndex { events: vec![1, 2] };
    assert_eq!(c.chat_events(criteria).args().context, expected);
}

#[test]
fn canonical_context_of_canonical_context_is_itself() {
    let client = Client::new(Arc::new(FakeRuntime::working()), scope("same"));
    assert_eq!(client.chat_details().args().context, scope("same"));
}

#[test]
fn send_text_message_matches_send_message_with_text() {
    for text in ["", "plain words", "**bold** @UserId(xyz) <b>markup</b> `code`"] {
        let (_, a) = client_with(FakeRuntime::working());
        let (_, b) = client_with(FakeRuntime::working());
        let by_text = a.send_text_message(text.to_string());
        let by_content = b.send_message(MessageContentInitial::Text(TextContent { text: text.to_string() }));
        assert_eq!(by_text.args(), by_content.args());
        assert_eq!(
            by_text.args().content,
            MessageContentInitial::Text(TextContent { text: text.to_string() })
        );
    }
}

#[test]
fn send_message_defaults_and_options() {
    let (_, c) = client_with(FakeRuntime::working());
    let builder = c.send_text_message("hi".to_string());
    assert!(builder.args().finalised);
    assert!(!builder.args().block_level_markdown);
    let builder = builder.with_block_level_markdown(true).with_finalised(false);
    assert!(!builder.args().finalised);
    assert!(builder.args().block_level_markdown);
    assert_eq!(builder.args().content, MessageContentInitial::text("hi".to_string()));
}

#[test]
fn fire_and_forget_returns_pending_message() {
    let (runtime, c) = client_with(FakeRuntime::failing("platform unreachable"));
    let result = c.send_text_message("ping".to_string()).execute_then_return_message();
    let expected = Message {
        id: 424242,
        content: MessageContentInitial::Text(TextContent { text: "ping".to_string() }),
        finalised: true,
    };
    assert_eq!(result, SuccessResult { message: Some(expected) });
    assert_eq!(*runtime.calls.borrow(), vec!["spawn_send_message".to_string()]);
    assert_eq!(runtime.sent.borrow().len(), 1);
}

#[test]
fn blocking_send_returns_acknowledged_message() {
    let (runtime, c) = client_with(FakeRuntime::working());
    let result = c.send_text_message("ack me".to_string()).with_finalised(false).execute();
    let expected = Message {
        id: 9001,
        content: MessageContentInitial::text("ack me".to_string()),
        finalised: false,
    };
    assert_eq!(result, Ok(SuccessResult { message: Some(expected) }));
    assert_eq!(runtime.sent.borrow()[0].context, scope("abc123"));
}

#[test]
fn blocking_send_passes_runtime_error_through() {
    let (_, c) = client_with(FakeRuntime::failing("rejected"));
    let result = c.send_text_message("x".to_string()).execute();
    assert_eq!(result, Err(InternalError { reason: "rejected".to_string() }));
}

#[test]
fn send_result_maps_each_outcome() {
    let args = SendMessageArgs {
        context: scope("u"),
        content: MessageContentInitial::text("body".to_string()),
        block_level_markdown: true,
        finalised: true,
    };
    let ok = send_result(args.clone(), Ok(SendMessageReceipt { message_id: 77, event_index: 2 }));
    assert_eq!(
        ok,
        Ok(SuccessResult {
            message: Some(Message {
                id: 77,
                content: MessageContentInitial::text("body".to_string()),
                finalised: true,
            }),
        })
    );
    let err = send_result(args, Err(InternalError { reason: "boom".to_string() }));
    assert_eq!(err, Err(InternalError { reason: "boom".to_string() }));
}

#[test]
fn greet_mentions_the_initiator_without_waiting() {
    let runtime = Arc::new(FakeRuntime::working());
    let client = Client::new(runtime.clone(), command("abc123"));
    let result = greet(client);
    let expected = Message {
        id: 424242,
        content: MessageContentInitial::Text(TextContent { text: "hello @UserId(abc123)".to_string() }),
        finalised: true,
    };
    assert_eq!(result, Ok(SuccessResult { message: Some(expected) }));
    assert_eq!(*runtime.calls.borrow(), vec!["spawn_send_message".to_string()]);
    assert_eq!(
        runtime.sent.borrow()[0].content,
        MessageContentInitial::text("hello @UserId(abc123)".to_string())
    );
}

#[test]
fn greeting_text_is_exact() {
    assert_eq!(greeting("abc123"), "hello @UserId(abc123)");
    assert_eq!(greeting(""), "hello @UserId()");
}

#[test]
fn chat_events_with_empty_selection_returns_no_events() {
    let selections = vec![
        EventsSelectionCriteria::ByIndex { events: vec![] },
        EventsSelectionCriteria::Page { start_index: 5, ascending: true, max_messages: 10, max_events: 0 },
        EventsSelectionCriteria::Window { mid_point: 8, max_messages: 3, max_events: 0 },
    ];
    for criteria in selections {
        assert!(criteria.is_empty());
        let (runtime, c) = client_with(FakeRuntime::failing("should not be asked"));
        let result = c.chat_events(criteria).execute();
        assert_eq!(result, Ok(ChatEventsResponse { events: vec![] }));
        assert!(runtime.calls.borrow().is_empty());
    }
}

#[test]
fn chat_events_with_selection_asks_runtime() {
    let criteria = EventsSelectionCriteria::ByIndex { events: vec![3, 9] };
    assert!(!criteria.is_empty());
    let (runtime, c) = client_with(FakeRuntime::working());
    let result = c.chat_events(criteria).execute();
    let expected = vec![ChatEvent { index: 0, timestamp: 1000 }, ChatEvent { index: 1, timestamp: 1001 }];
    assert_eq!(result, Ok(ChatEventsResponse { events: expected }));
    assert_eq!(*runtime.calls.borrow(), vec!["chat_events".to_string()]);
    let (_, c) = client_with(FakeRuntime::failing("down"));
    let page = EventsSelectionCriteria::Page { start_index: 0, ascending: false, max_messages: 0, max_events: 2 };
    assert_eq!(c.chat_events(page).execute(), Err(InternalError { reason: "down".to_string() }));
}

#[test]
fn private_channel_creation_failure_is_an_error() {
    let (runtime, c) = client_with(FakeRuntime::failing("not permitted"));
    let builder = c.create_channel("secret".to_string(), false);
    assert!(!builder.args().is_public);
    assert_eq!(builder.args().name, "secret");
    assert_eq!(builder.execute(), Err(InternalError { reason: "not permitted".to_string() }));
    assert_eq!(*runtime.calls.borrow(), vec!["create_channel secret false".to_string()]);
}

#[test]
fn channel_creation_returns_runtime_channel_id() {
    let (_, c) = client_with(FakeRuntime::working());
    assert_eq!(c.create_channel("public".to_string(), true).execute(), Ok(ChannelId(55)));
}

#[test]
fn deleting_missing_channel_failure_is_an_error() {
    let (runtime, c) = client_with(FakeRuntime::failing("channel not found"));
    let builder = c.delete_channel(ChannelId(123456));
    assert_eq!(builder.args().channel_id, ChannelId(123456));
    assert_eq!(builder.execute(), Err(InternalError { reason: "channel not found".to_string() }));
    assert_eq!(*runtime.calls.borrow(), vec!["delete_channel 123456".to_string()]);
}

#[test]
fn chat_details_passes_runtime_answer_through() {
    let (_, c) = client_with(FakeRuntime::working());
    let expected = ChatDetails { name: "general".to_string(), is_public: true, latest_event_index: 40 };
    assert_eq!(c.chat_details().execute(), Ok(expected));
    let (_, c) = client_with(FakeRuntime::failing("timeout"));
    assert_eq!(c.chat_details().execute(), Err(InternalError { reason: "timeout".to_string() }));
}

#[test]
fn empty_events_response_holds_nothing() {
    assert!(ChatEventsResponse::empty().events.is_empty());
}
