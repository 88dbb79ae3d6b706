use vstd::prelude::*;
use std::sync::Arc;
use crate::client::Client;
use crate::runtime::Runtime;
use crate::send_message::SendMessageBuilder;
use crate::types::{IntoActionContext, MessageContentInitial, TextContent};

verus! {

/// A client hands back the very context it was made with, and every action it
/// starts acts in the canonical conversion of that context.
pub proof fn lemma_client_context_converts<R: Runtime, C: IntoActionContext>(
    runtime: Arc<R>,
    context: C,
    client: Client<R, C>,
)
    requires
        call_ensures(Client::<R, C>::new, (runtime, context), client),
    ensures
        client.spec_context() == context,
        client.spec_action_context() == context.canonical(),
{
}

/// Sending text is sending text content: on the same client, the builder that
/// `send_text_message(text)` returns and the one that
/// `send_message(MessageContentInitial::Text(TextContent { text }))` returns
/// go to the same runtime with the same request, whatever `text` holds.
pub proof fn lemma_send_text_is_send_message<R: Runtime, C: IntoActionContext>(
    client: Client<R, C>,
    text: String,
    by_text: SendMessageBuilder<R>,
    by_content: SendMessageBuilder<R>,
)
    requires
        call_ensures(Client::<R, C>::send_text_message, (client, text), by_text),
        call_ensures(
            Client::<R, C>::send_message,
            (client, MessageContentInitial::Text(TextContent { text })),
            by_content,
        ),
    ensures
        by_text.spec_runtime() == by_content.spec_runtime(),
        by_text.spec_args() == by_content.spec_args(),
{
}

} // verus!
