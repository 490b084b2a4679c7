//! The messages sent to the chat hub: their fields, and how a serialised
//! message is framed on the wire.

use vstd::prelude::*;
use crate::conversation::{Conversation, ConversationView};
use crate::text::{i32_to_string, push_char, signed_decimal};

verus! {

/// The character that ends every record sent over the chat hub.
pub const SPLIT_CHAR: char = '\u{1e}';

/// A request to the chat hub to invoke its `chat` target.
#[derive(Debug, Clone)]
pub struct Args {
    pub arguments: Vec<Argument>,
    pub invocation_id: String,
    pub target: String,
    pub type_: i32,
}

/// The argument of a chat request.
#[derive(Debug, Clone)]
pub struct Argument {
    pub source: String,
    pub options_sets: Vec<String>,
    pub is_start_of_session: bool,
    pub message: Message,
    pub conversation_signature: String,
    pub participant: Participant,
    pub conversation_id: String,
}

/// The user's message in a chat request.
#[derive(Debug, Clone)]
pub struct Message {
    pub author: String,
    pub input_method: String,
    pub text: String,
    pub message_type: String,
}

/// Who sends a chat request.
#[derive(Debug, Clone)]
pub struct Participant {
    pub id: String,
}

/// The mathematical value of a [`Message`].
pub struct MessageView {
    pub author: Seq<char>,
    pub input_method: Seq<char>,
    pub text: Seq<char>,
    pub message_type: Seq<char>,
}

/// The mathematical value of an [`Argument`].
pub struct ArgumentView {
    pub source: Seq<char>,
    pub options_sets: Seq<Seq<char>>,
    pub is_start_of_session: bool,
    pub message: MessageView,
    pub conversation_signature: Seq<char>,
    pub participant_id: Seq<char>,
    pub conversation_id: Seq<char>,
}

/// The mathematical value of an [`Args`].
pub struct ArgsView {
    pub arguments: Seq<ArgumentView>,
    pub invocation_id: Seq<char>,
    pub target: Seq<char>,
    pub type_: i32,
}

impl View for Message {
    type V = MessageView;

    open spec fn view(&self) -> MessageView {
        MessageView {
            author: self.author@,
            input_method: self.input_method@,
            text: self.text@,
            message_type: self.message_type@,
        }
    }
}

impl View for Argument {
    type V = ArgumentView;

    open spec fn view(&self) -> ArgumentView {
        ArgumentView {
            source: self.source@,
            options_sets: self.options_sets@.map_values(|s: String| s@),
            is_start_of_session: self.is_start_of_session,
            message: self.message@,
            conversation_signature: self.conversation_signature@,
            participant_id: self.participant.id@,
            conversation_id: self.conversation_id@,
        }
    }
}

impl View for Args {
    type V = ArgsView;

    open spec fn view(&self) -> ArgsView {
        ArgsView {
            arguments: self.arguments@.map_values(|a: Argument| a@),
            invocation_id: self.invocation_id@,
            target: self.target@,
            type_: self.type_,
        }
    }
}

/// The options that every chat request asks for.
pub open spec fn chat_options() -> Seq<Seq<char>> {
    seq!["deepleo"@, "enable_debug_commands"@, "disable_emoji_spoken_text"@, "enablemm"@]
}

/// The request that sends `text` in conversation `c`: one argument from the
/// `cib` source, typed by the user at the keyboard, which starts the session
/// exactly when no message was sent before; numbered by the count of
/// messages sent so far; aimed at `chat`, of type 4.
pub open spec fn message_args(text: Seq<char>, c: ConversationView) -> ArgsView {
    ArgsView {
        arguments: seq![
            ArgumentView {
                source: "cib"@,
                options_sets: chat_options(),
                is_start_of_session: c.invocation_id == 0,
                message: MessageView {
                    author: "user"@,
                    input_method: "Keyboard"@,
                    text,
                    message_type: "Chat"@,
                },
                conversation_signature: c.conversation_signature,
                participant_id: c.client_id,
                conversation_id: c.conversation_id,
            },
        ],
        invocation_id: signed_decimal(c.invocation_id as int),
        target: "chat"@,
        type_: 4,
    }
}

/// The request that sends `msg` in `conversation`.
pub fn fill_args(msg: &str, conversation: &Conversation) -> (a: Args)
    ensures
        a@ == message_args(msg@, conversation@),
        a.arguments@.len() == 1,
        a.arguments@[0].options_sets@.map_values(|s: String| s@) == seq![
            "deepleo"@,
            "enable_debug_commands"@,
            "disable_emoji_spoken_text"@,
            "enablemm"@,
        ],
        a.arguments@[0].message.text@ == msg@,
{
    let mut options_sets: Vec<String> = Vec::new();
    options_sets.push("deepleo".to_owned());
    options_sets.push("enable_debug_commands".to_owned());
    options_sets.push("disable_emoji_spoken_text".to_owned());
    options_sets.push("enablemm".to_owned());
    let argument = Argument {
        source: "cib".to_owned(),
        options_sets,
        is_start_of_session: conversation.invocation_id == 0,
        message: Message {
            author: "user".to_owned(),
            input_method: "Keyboard".to_owned(),
            text: msg.to_owned(),
            message_type: "Chat".to_owned(),
        },
        conversation_signature: conversation.conversation_signature.clone(),
        participant: Participant { id: conversation.client_id.clone() },
        conversation_id: conversation.conversation_id.clone(),
    };
    let mut arguments: Vec<Argument> = Vec::new();
    arguments.push(argument);
    let a = Args {
        arguments,
        invocation_id: i32_to_string(conversation.invocation_id),
        target: "chat".to_owned(),
        type_: 4,
    };
    assert(a@.arguments[0].options_sets =~= chat_options());
    assert(a@.arguments =~= message_args(msg@, conversation@).arguments);
    a
}

/// A record as it goes on the wire: the serialised text, then [`SPLIT_CHAR`].
pub fn frame(json: &str) -> (r: String)
    ensures
        r@ == json@.push(SPLIT_CHAR),
{
    let mut r = json.to_owned();
    push_char(&mut r, SPLIT_CHAR);
    r
}

/// The record that opens the chat hub's JSON protocol.
pub open spec fn protocol_record() -> Seq<char> {
    "{\"protocol\": \"json\", \"version\": 1}"@.push(SPLIT_CHAR)
}

/// The record that opens the chat hub's JSON protocol, framed.
pub fn protocol_message() -> (r: String)
    ensures
        r@ == protocol_record(),
{
    frame("{\"protocol\": \"json\", \"version\": 1}")
}

/// Every chat request, whatever the number of messages already sent, has
/// one argument carrying the four chat options and the fixed fields (source
/// `cib`, author `user`, input method `Keyboard`, message type `Chat`),
/// aimed at `chat` with type 4; the text, the conversation's identifiers and
/// the count of messages sent are the only parts that vary.
pub proof fn lemma_request_fixed_fields(text: Seq<char>, c: ConversationView)
    ensures
        ({
            let a = message_args(text, c);
            &&& a.arguments.len() == 1
            &&& a.arguments[0].options_sets == seq![
                "deepleo"@,
                "enable_debug_commands"@,
                "disable_emoji_spoken_text"@,
                "enablemm"@,
            ]
            &&& a.arguments[0].source == "cib"@
            &&& a.arguments[0].message.author == "user"@
            &&& a.arguments[0].message.input_method == "Keyboard"@
            &&& a.arguments[0].message.message_type == "Chat"@
            &&& a.arguments[0].message.text == text
            &&& a.arguments[0].conversation_signature == c.conversation_signature
            &&& a.arguments[0].participant_id == c.client_id
            &&& a.arguments[0].conversation_id == c.conversation_id
            &&& a.target == "chat"@
            &&& a.type_ == 4
            &&& a.invocation_id == signed_decimal(c.invocation_id as int)
        }),
{
}

/// Any two requests carry the same options, whatever their texts and
/// however many messages were sent before each.
pub proof fn lemma_requests_share_options(
    t1: Seq<char>,
    c1: ConversationView,
    t2: Seq<char>,
    c2: ConversationView,
)
    ensures
        message_args(t1, c1).arguments[0].options_sets == message_args(
            t2,
            c2,
        ).arguments[0].options_sets,
{
}

} // verus!
