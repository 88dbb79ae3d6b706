use vstd::prelude::*;
use crate::client::Client;
use crate::runtime::Runtime;
use crate::types::{
    BotCommandContext, InternalError, MessageContentInitial, SuccessResult,
};

verus! {

/// The greeting for the user `initiator`: `hello @UserId(<initiator>)`, which
/// the platform renders as a mention of that user.
pub open spec fn spec_greeting(initiator: Seq<char>) -> Seq<char> {
    "hello @UserId("@ + initiator + ")"@
}

/// Builds the greeting for the user `initiator`.
pub fn greeting(initiator: &str) -> (r: String)
    ensures
        r@ == spec_greeting(initiator@),
{
    let mut text = String::from_str("hello @UserId(");
    text.append(initiator);
    text.append(")");
    text
}

/// Greets the user who issued the command with a mention, without waiting for
/// the platform to acknowledge the message.
pub fn greet<R: Runtime>(client: Client<R, BotCommandContext>) -> (r: Result<
    SuccessResult,
    InternalError,
>)
    ensures
        r matches Ok(result) && result.message matches Some(message) && {
            &&& message.id == client.spec_context().scope.message_id
            &&& message.finalised
            &&& message.content->Text_0.text@ == spec_greeting(
                client.spec_context().scope.initiator@,
            )
        },
{
    let text = greeting(client.context().scope.initiator.as_str());
    let message = client.send_text_message(text).execute_then_return_message();
    Ok(message)
}

} // verus!
