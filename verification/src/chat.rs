//! The chat hub session: the messages sent, the last update received, and
//! what the updates say (the answer so far, the suggested replies, the end of
//! an answer).

use vstd::prelude::*;
use crate::conversation::{ChatError, ChatErrorView, Conversation, ConversationView};
use crate::json::{gjson_int, gjson_text, gjson_texts, is_plain_key, json_int, json_text, json_texts};
use crate::msg::{Args, fill_args, message_args};
use crate::text::signed_decimal;
use crate::text::same_text;

verus! {

/// Where an update says what kind of update it is.
pub const TYPE_PATH: &'static str = "type";

/// Where an answer update carries the text of the answer card.
pub const CARD_TEXT_PATH: &'static str = "arguments.0.messages.0.adaptiveCards.0.body.0.text";

/// Where an answer update carries the plain text of the answer.
pub const MESSAGE_TEXT_PATH: &'static str = "arguments.0.messages.0.text";

/// Where the final update says how the request went.
pub const RESULT_VALUE_PATH: &'static str = "item.result.value";

/// Where the final update explains how the request went.
pub const RESULT_MESSAGE_PATH: &'static str = "item.result.message";

/// Where the final update lists the suggested replies.
pub const SUGGESTIONS_PATH: &'static str = "item.messages.1.suggestedResponses.#.text";

/// The kind of update that carries the answer so far.
pub const ANSWER_UPDATE: i32 = 1;

/// The kind of update that ends an answer.
pub const FINAL_UPDATE: i32 = 2;

/// The text that an update of kind `kind` carries: `text` for an answer
/// update, nothing otherwise.
pub open spec fn text_of_kind(kind: i32, text: Seq<char>) -> Option<Seq<char>> {
    if kind == ANSWER_UPDATE {
        Some(text)
    } else {
        None
    }
}

/// The view of an optional text.
pub open spec fn opt_view(o: Option<String>) -> Option<Seq<char>> {
    match o {
        Some(s) => Some(s@),
        None => None,
    }
}

/// The text that an update of kind `kind` carries, given the text found at
/// its text path.
pub fn text_update(kind: i32, text: String) -> (r: Option<String>)
    ensures
        opt_view(r) == text_of_kind(kind, text@),
{
    if kind == ANSWER_UPDATE {
        Some(text)
    } else {
        None
    }
}

/// The answer-card text of the update `msg`, when it is an answer update.
pub fn answer_text(msg: &str) -> (r: Option<String>)
    ensures
        opt_view(r) == text_of_kind(
            gjson_int(msg@, TYPE_PATH@),
            gjson_text(msg@, CARD_TEXT_PATH@),
        ),
{
    text_update(json_int(msg, TYPE_PATH), json_text(msg, CARD_TEXT_PATH))
}

/// The plain text of the update `msg`, when it is an answer update.
pub fn answer_plain_text(msg: &str) -> (r: Option<String>)
    ensures
        opt_view(r) == text_of_kind(
            gjson_int(msg@, TYPE_PATH@),
            gjson_text(msg@, MESSAGE_TEXT_PATH@),
        ),
{
    text_update(json_int(msg, TYPE_PATH), json_text(msg, MESSAGE_TEXT_PATH))
}

/// Whether an update of kind `kind` ends the answer.
pub fn is_final_update(kind: i32) -> (r: bool)
    ensures
        r == (kind == FINAL_UPDATE),
{
    kind == FINAL_UPDATE
}

/// What an update says of the suggested replies: none when it does not end
/// the answer; the throttling error with the service's message when the
/// request was throttled; the suggested replies otherwise.
pub open spec fn suggestions_of_kind(
    kind: i32,
    status: Seq<char>,
    message: Seq<char>,
    texts: Seq<Seq<char>>,
) -> Result<Option<Seq<Seq<char>>>, ChatErrorView> {
    if kind == FINAL_UPDATE {
        if status == "Throttled"@ {
            Err(ChatErrorView::Throttled(message))
        } else {
            Ok(Some(texts))
        }
    } else {
        Ok(None)
    }
}

/// What the update `msg` says of the suggested replies.
pub open spec fn suggestions_of(msg: Seq<char>) -> Result<Option<Seq<Seq<char>>>, ChatErrorView> {
    suggestions_of_kind(
        gjson_int(msg, TYPE_PATH@),
        gjson_text(msg, RESULT_VALUE_PATH@),
        gjson_text(msg, RESULT_MESSAGE_PATH@),
        gjson_texts(msg, SUGGESTIONS_PATH@),
    )
}

/// The view of a result that may hold suggested replies.
pub open spec fn suggestions_view(r: Result<Option<Vec<String>>, ChatError>) -> Result<
    Option<Seq<Seq<char>>>,
    ChatErrorView,
> {
    match r {
        Ok(Some(v)) => Ok(Some(v@.map_values(|s: String| s@))),
        Ok(None) => Ok(None),
        Err(e) => Err(e@),
    }
}

/// What an update of kind `kind` says of the suggested replies, given the
/// fields found at its result and suggestion paths.
pub fn suggestions_update(kind: i32, status: &str, message: String, texts: Vec<String>) -> (r:
    Result<Option<Vec<String>>, ChatError>)
    ensures
        suggestions_view(r) == suggestions_of_kind(
            kind,
            status@,
            message@,
            texts@.map_values(|s: String| s@),
        ),
        kind != FINAL_UPDATE ==> r matches Ok(None),
        kind == FINAL_UPDATE && status@ == "Throttled"@ ==> (r matches Err(ChatError::Throttled(m))
            && m@ == message@),
        kind == FINAL_UPDATE && status@ != "Throttled"@ ==> (r matches Ok(Some(v)) && v@
            == texts@),
{
    if kind == FINAL_UPDATE {
        if same_text(status, "Throttled") {
            Err(ChatError::Throttled(message))
        } else {
            Ok(Some(texts))
        }
    } else {
        Ok(None)
    }
}

/// Where an answer stands after the last update.
#[derive(Debug)]
pub enum AnswerProgress {
    /// The answer goes on: receive the next update.
    Pending,
    /// The answer is over, with these suggested replies.
    Finished(Vec<String>),
}

/// The mathematical value of an [`AnswerProgress`].
pub enum AnswerProgressView {
    Pending,
    Finished(Seq<Seq<char>>),
}

/// Where an answer stands after the update `msg`: over, with its suggested
/// replies, when `msg` ends it; a throttling error when the request was
/// throttled; going on otherwise.
pub open spec fn progress_of(msg: Seq<char>) -> Result<AnswerProgressView, ChatErrorView> {
    match suggestions_of(msg) {
        Ok(Some(t)) => Ok(AnswerProgressView::Finished(t)),
        Ok(None) => Ok(AnswerProgressView::Pending),
        Err(e) => Err(e),
    }
}

/// The view of a result that holds the progress of an answer.
pub open spec fn progress_view(r: Result<AnswerProgress, ChatError>) -> Result<
    AnswerProgressView,
    ChatErrorView,
> {
    match r {
        Ok(AnswerProgress::Pending) => Ok(AnswerProgressView::Pending),
        Ok(AnswerProgress::Finished(v)) => Ok(
            AnswerProgressView::Finished(v@.map_values(|s: String| s@)),
        ),
        Err(e) => Err(e@),
    }
}

/// An answer goes on exactly while its last update does not end it: asking
/// for the suggested replies only once the update ends the answer decides
/// the same as asking after every update.
pub proof fn lemma_progress_follows_final_update(msg: Seq<char>)
    ensures
        (progress_of(msg) matches Ok(AnswerProgressView::Pending)) <==> gjson_int(
            msg,
            TYPE_PATH@,
        ) != FINAL_UPDATE,
{
}

/// The state of a chat with the hub: the conversation, the last update
/// received (until its suggested replies are taken), and where the cookies
/// are kept.
pub struct ChatSession {
    conversation: Conversation,
    msg_cache: String,
    cookie_path: String,
}

/// The mathematical value of a [`ChatSession`].
pub struct ChatSessionView {
    pub conversation: ConversationView,
    pub cache: Seq<char>,
    pub cookie_path: Seq<char>,
}

impl View for ChatSession {
    type V = ChatSessionView;

    closed spec fn view(&self) -> ChatSessionView {
        ChatSessionView {
            conversation: self.conversation@,
            cache: self.msg_cache@,
            cookie_path: self.cookie_path@,
        }
    }
}

proof fn lemma_type_path_is_plain_key()
    ensures
        is_plain_key(TYPE_PATH@),
{
    reveal_strlit("type");
}

impl ChatSession {
    /// A session in `conversation`, with no update received.
    pub fn new(conversation: Conversation, cookie_path: &str) -> (r: ChatSession)
        ensures
            r@ == (ChatSessionView {
                conversation: conversation@,
                cache: Seq::empty(),
                cookie_path: cookie_path@,
            }),
    {
        ChatSession { conversation, msg_cache: String::new(), cookie_path: cookie_path.to_owned() }
    }

    /// Where the cookies are kept.
    pub fn cookie_path(&self) -> (r: &str)
        ensures
            r@ == self@.cookie_path,
    {
        self.cookie_path.as_str()
    }

    /// The conversation of this session.
    pub fn conversation(&self) -> (r: &Conversation)
        ensures
            r@ == self@.conversation,
    {
        &self.conversation
    }

    /// Moves the session to another conversation (after a reset); the last
    /// update received stays until it is cleared.
    pub fn set_conversation(&mut self, conversation: Conversation)
        ensures
            final(self)@ == (ChatSessionView { conversation: conversation@, ..old(self)@ }),
    {
        self.conversation = conversation;
    }

    /// The request that sends `msg` next.
    pub fn message(&self, msg: &str) -> (a: Args)
        ensures
            a@ == message_args(msg@, self@.conversation),
    {
        fill_args(msg, &self.conversation)
    }

    /// Counts a message as sent.
    pub fn message_sent(&mut self)
        requires
            old(self)@.conversation.invocation_id < i32::MAX,
        ensures
            final(self)@ == (ChatSessionView {
                conversation: after_send(old(self)@.conversation),
                ..old(self)@
            }),
    {
        self.conversation.invocation_id = self.conversation.invocation_id + 1;
    }

    /// Keeps `raw` as the last update received, and gives it back.
    pub fn recv_raw_json(&mut self, raw: String) -> (r: String)
        ensures
            r@ == raw@,
            final(self)@ == (ChatSessionView { cache: raw@, ..old(self)@ }),
    {
        self.msg_cache = raw;
        self.msg_cache.clone()
    }

    /// Keeps `raw` as the last update received, and gives its answer-card
    /// text when it is an answer update.
    pub fn recv_text(&mut self, raw: String) -> (r: Option<String>)
        ensures
            final(self)@ == (ChatSessionView { cache: raw@, ..old(self)@ }),
            opt_view(r) == text_of_kind(
                gjson_int(raw@, TYPE_PATH@),
                gjson_text(raw@, CARD_TEXT_PATH@),
            ),
    {
        let msg = self.recv_raw_json(raw);
        answer_text(msg.as_str())
    }

    /// Keeps `raw` as the last update received, and gives its plain text
    /// when it is an answer update.
    pub fn recv_text_only(&mut self, raw: String) -> (r: Option<String>)
        ensures
            final(self)@ == (ChatSessionView { cache: raw@, ..old(self)@ }),
            opt_view(r) == text_of_kind(
                gjson_int(raw@, TYPE_PATH@),
                gjson_text(raw@, MESSAGE_TEXT_PATH@),
            ),
    {
        let msg = self.recv_raw_json(raw);
        answer_plain_text(msg.as_str())
    }

    /// What the last update says of the suggested replies. Once they are
    /// given, the update is forgotten: they are given once.
    pub fn recv_suggesteds(&mut self) -> (r: Result<Option<Vec<String>>, ChatError>)
        ensures
            suggestions_view(r) == suggestions_of(old(self)@.cache),
            final(self)@ == (ChatSessionView {
                cache: if r matches Ok(Some(_)) {
                    Seq::empty()
                } else {
                    old(self)@.cache
                },
                ..old(self)@
            }),
            old(self)@.cache.len() == 0 ==> r matches Ok(None),
    {
        let msg = self.msg_cache.as_str();
        proof {
            lemma_type_path_is_plain_key();
        }
        let kind = json_int(msg, TYPE_PATH);
        let status = json_text(msg, RESULT_VALUE_PATH);
        let message = json_text(msg, RESULT_MESSAGE_PATH);
        let texts = json_texts(msg, SUGGESTIONS_PATH);
        let r = suggestions_update(kind, status.as_str(), message, texts);
        if let Ok(Some(_)) = &r {
            self.msg_cache = String::new();
        }
        r
    }

    /// Where the answer stands after the last update; once it is over, the
    /// update is forgotten.
    pub fn answer_progress(&mut self) -> (r: Result<AnswerProgress, ChatError>)
        ensures
            progress_view(r) == progress_of(old(self)@.cache),
            final(self)@ == (ChatSessionView {
                cache: if r matches Ok(AnswerProgress::Finished(_)) {
                    Seq::empty()
                } else {
                    old(self)@.cache
                },
                ..old(self)@
            }),
            old(self)@.cache.len() == 0 ==> r matches Ok(AnswerProgress::Pending),
    {
        match self.recv_suggesteds() {
            Ok(Some(texts)) => Ok(AnswerProgress::Finished(texts)),
            Ok(None) => Ok(AnswerProgress::Pending),
            Err(e) => Err(e),
        }
    }

    /// Whether the last update ends the answer.
    pub fn is_done(&self) -> (r: bool)
        ensures
            r == (gjson_int(self@.cache, TYPE_PATH@) == FINAL_UPDATE),
            self@.cache.len() == 0 ==> !r,
    {
        proof {
            lemma_type_path_is_plain_key();
        }
        is_final_update(json_int(self.msg_cache.as_str(), TYPE_PATH))
    }

    /// Forgets the last update received.
    pub fn clear_cache(&mut self)
        ensures
            final(self)@ == (ChatSessionView { cache: Seq::empty(), ..old(self)@ }),
    {
        self.msg_cache = String::new();
    }
}

/// Only the first message of a conversation starts the session: the
/// request for a message says so exactly when none was sent before it, and
/// once a message is sent, the next request does not.
pub proof fn lemma_only_first_message_starts_session(
    c: ConversationView,
    text: Seq<char>,
    next: Seq<char>,
)
    requires
        0 <= c.invocation_id < i32::MAX,
    ensures
        message_args(text, c).arguments[0].is_start_of_session == (c.invocation_id == 0),
        !message_args(
            next,
            ConversationView { invocation_id: (c.invocation_id + 1) as i32, ..c },
        ).arguments[0].is_start_of_session,
{
}

/// The conversation once one more message is sent in it.
pub open spec fn after_send(c: ConversationView) -> ConversationView {
    ConversationView { invocation_id: (c.invocation_id + 1) as i32, ..c }
}

/// The conversation once `n` more messages are sent in it.
pub open spec fn after_sends(c: ConversationView, n: nat) -> ConversationView
    decreases n,
{
    if n == 0 {
        c
    } else {
        after_send(after_sends(c, (n - 1) as nat))
    }
}

proof fn lemma_after_sends_count(c: ConversationView, n: nat)
    requires
        0 <= c.invocation_id,
        c.invocation_id + n <= i32::MAX,
    ensures
        after_sends(c, n) == (ConversationView {
            invocation_id: (c.invocation_id + n) as i32,
            ..c
        }),
    decreases n,
{
    if n > 0 {
        lemma_after_sends_count(c, (n - 1) as nat);
    }
}

/// The numbering of a run of messages in a new conversation: the request
/// for the `j`-th message sent (counting from 0) carries invocation `j` in
/// decimal, starts the session exactly when `j` is 0, and otherwise holds the
/// conversation's identifiers and the message's text unchanged.
pub proof fn lemma_message_numbering(c: ConversationView, texts: Seq<Seq<char>>)
    requires
        c.invocation_id == 0,
        texts.len() <= i32::MAX,
    ensures
        forall|j: int|
            0 <= j < texts.len() ==> {
                let a = #[trigger] message_args(texts[j], after_sends(c, j as nat));
                &&& a.invocation_id == signed_decimal(j)
                &&& a.arguments[0].is_start_of_session == (j == 0)
                &&& a.arguments[0].message.text == texts[j]
                &&& a.arguments[0].conversation_id == c.conversation_id
                &&& a.arguments[0].conversation_signature == c.conversation_signature
                &&& a.arguments[0].participant_id == c.client_id
            },
{
    assert forall|j: int| 0 <= j < texts.len() implies {
        let a = #[trigger] message_args(texts[j], after_sends(c, j as nat));
        &&& a.invocation_id == signed_decimal(j)
        &&& a.arguments[0].is_start_of_session == (j == 0)
        &&& a.arguments[0].message.text == texts[j]
        &&& a.arguments[0].conversation_id == c.conversation_id
        &&& a.arguments[0].conversation_signature == c.conversation_signature
        &&& a.arguments[0].participant_id == c.client_id
    } by {
        lemma_after_sends_count(c, j as nat);
    }
}

/// What an update says of the suggested replies, case by case: an update
/// that does not end the answer gives none; a throttled final update gives
/// the throttling error with the service's message; any other final update
/// gives all the texts found at the suggestion path, in order.
pub proof fn lemma_suggestions_by_case(
    kind: i32,
    status: Seq<char>,
    message: Seq<char>,
    texts: Seq<Seq<char>>,
)
    ensures
        kind != 2 ==> suggestions_of_kind(kind, status, message, texts) == Ok::<
            Option<Seq<Seq<char>>>,
            ChatErrorView,
        >(None),
        kind == 2 && status == "Throttled"@ ==> suggestions_of_kind(kind, status, message, texts)
            == Err::<Option<Seq<Seq<char>>>, ChatErrorView>(ChatErrorView::Throttled(message)),
        kind == 2 && status != "Throttled"@ ==> suggestions_of_kind(kind, status, message, texts)
            == Ok::<Option<Seq<Seq<char>>>, ChatErrorView>(Some(texts)),
{
}

/// The suggested replies of a final update that is not throttled are all the
/// texts at its suggestion path, in order, and the answer is then over with
/// exactly those replies.
pub proof fn lemma_final_update_gives_all_replies(msg: Seq<char>)
    requires
        gjson_int(msg, TYPE_PATH@) == 2,
        gjson_text(msg, RESULT_VALUE_PATH@) != "Throttled"@,
    ensures
        suggestions_of(msg) == Ok::<Option<Seq<Seq<char>>>, ChatErrorView>(
            Some(gjson_texts(msg, SUGGESTIONS_PATH@)),
        ),
        progress_of(msg) == Ok::<AnswerProgressView, ChatErrorView>(
            AnswerProgressView::Finished(gjson_texts(msg, SUGGESTIONS_PATH@)),
        ),
{
}

} // verus!
