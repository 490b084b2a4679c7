//! A conversation opened with the chat service, and the errors of a chat.

use vstd::prelude::*;
use crate::json::{gjson_text, json_text};
use crate::text::same_text;

verus! {

/// The identifiers of an open conversation, and how many messages were sent
/// in it.
#[derive(Debug, Clone)]
pub struct Conversation {
    pub client_id: String,
    pub conversation_id: String,
    pub conversation_signature: String,
    pub invocation_id: i32,
}

/// The mathematical value of a [`Conversation`].
pub struct ConversationView {
    pub client_id: Seq<char>,
    pub conversation_id: Seq<char>,
    pub conversation_signature: Seq<char>,
    pub invocation_id: i32,
}

impl View for Conversation {
    type V = ConversationView;

    open spec fn view(&self) -> ConversationView {
        ConversationView {
            client_id: self.client_id@,
            conversation_id: self.conversation_id@,
            conversation_signature: self.conversation_signature@,
            invocation_id: self.invocation_id,
        }
    }
}

/// Why the chat service refused or cut short a request.
#[derive(Debug, Clone)]
pub enum ChatError {
    /// The service did not open a conversation; its message.
    Refused(String),
    /// The service throttled the chat; its message.
    Throttled(String),
}

/// The mathematical value of a [`ChatError`].
pub enum ChatErrorView {
    Refused(Seq<char>),
    Throttled(Seq<char>),
}

impl View for ChatError {
    type V = ChatErrorView;

    open spec fn view(&self) -> ChatErrorView {
        match self {
            ChatError::Refused(m) => ChatErrorView::Refused(m@),
            ChatError::Throttled(m) => ChatErrorView::Throttled(m@),
        }
    }
}

/// The text that reports an error to the user.
pub open spec fn error_message(e: ChatErrorView) -> Seq<char> {
    match e {
        ChatErrorView::Refused(m) => m,
        ChatErrorView::Throttled(m) => "Error: Throttled: "@ + m,
    }
}

impl ChatError {
    /// The text that reports this error to the user.
    pub fn message(&self) -> (r: String)
        ensures
            r@ == error_message(self@),
    {
        match self {
            ChatError::Refused(m) => m.clone(),
            ChatError::Throttled(m) => {
                let mut r = "Error: Throttled: ".to_owned();
                r.append(m.as_str());
                r
            },
        }
    }
}

/// The conversation that the service's answer to a request to open one
/// describes: opened when its `result.value` is `Success`, with the
/// identifiers given and no message sent yet; refused otherwise, with the
/// service's `result.message`.
pub open spec fn conversation_from(
    status: Seq<char>,
    client_id: Seq<char>,
    conversation_id: Seq<char>,
    signature: Seq<char>,
    message: Seq<char>,
) -> Result<ConversationView, ChatErrorView> {
    if status == "Success"@ {
        Ok(
            ConversationView {
                client_id,
                conversation_id,
                conversation_signature: signature,
                invocation_id: 0,
            },
        )
    } else {
        Err(ChatErrorView::Refused(message))
    }
}

/// The view of a result that holds a conversation.
pub open spec fn conversation_result_view(r: Result<Conversation, ChatError>) -> Result<
    ConversationView,
    ChatErrorView,
> {
    match r {
        Ok(c) => Ok(c@),
        Err(e) => Err(e@),
    }
}

/// The conversation that the service's answer describes, from the fields of
/// that answer.
pub fn conversation_from_fields(
    status: &str,
    client_id: String,
    conversation_id: String,
    signature: String,
    message: String,
) -> (r: Result<Conversation, ChatError>)
    ensures
        conversation_result_view(r) == conversation_from(
            status@,
            client_id@,
            conversation_id@,
            signature@,
            message@,
        ),
{
    if same_text(status, "Success") {
        Ok(
            Conversation {
                client_id,
                conversation_id,
                conversation_signature: signature,
                invocation_id: 0,
            },
        )
    } else {
        Err(ChatError::Refused(message))
    }
}

/// The conversation that the JSON answer `json` describes.
pub open spec fn conversation_of(json: Seq<char>) -> Result<ConversationView, ChatErrorView> {
    conversation_from(
        gjson_text(json, "result.value"@),
        gjson_text(json, "clientId"@),
        gjson_text(json, "conversationId"@),
        gjson_text(json, "conversationSignature"@),
        gjson_text(json, "result.message"@),
    )
}

impl Conversation {
    /// Reads the service's answer to a request to open a conversation.
    pub fn from_response(json: &str) -> (r: Result<Conversation, ChatError>)
        ensures
            conversation_result_view(r) == conversation_of(json@),
    {
        let status = json_text(json, "result.value");
        conversation_from_fields(
            status.as_str(),
            json_text(json, "clientId"),
            json_text(json, "conversationId"),
            json_text(json, "conversationSignature"),
            json_text(json, "result.message"),
        )
    }
}

} // verus!
