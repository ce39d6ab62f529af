//! The question-and-answer screen: a list of messages and an input field.
use vstd::prelude::*;
use crate::text::{trim, trimmed, is_blank, trim_start, trim_end, lemma_trimmed_empty_iff_blank};
use crate::log::{LogEntry, LogView, opt_log};

verus! {

/// One message of a conversation, from the user or from the model.
#[derive(Clone)]
pub struct Message {
    pub is_user: bool,
    pub text: String,
}

/// The content of a [`Message`].
#[verifier::ext_equal]
pub struct MessageView {
    pub is_user: bool,
    pub text: Seq<char>,
}

impl View for Message {
    type V = MessageView;

    open spec fn view(&self) -> MessageView {
        MessageView { is_user: self.is_user, text: self.text@ }
    }
}

/// The content of a list of messages, in order.
pub open spec fn messages_view(ms: Seq<Message>) -> Seq<MessageView> {
    ms.map_values(|m: Message| m@)
}

/// Appending a message to a list appends its content to the list's content.
pub proof fn lemma_messages_push(ms: Seq<Message>, m: Message)
    ensures
        messages_view(ms.push(m)) == messages_view(ms).push(m@),
{
    assert(messages_view(ms.push(m)) =~= messages_view(ms).push(m@));
}

/// Background, text colour and alignment of a message bubble: the user's
/// messages are blue on the right, the model's grey on the left.
pub open spec fn bubble_style(is_user: bool) -> (Seq<char>, Seq<char>, Seq<char>) {
    if is_user {
        ("#3498db"@, "white"@, "flex-end"@)
    } else {
        ("#f1f0f0"@, "black"@, "flex-start"@)
    }
}

impl Message {
    /// Background colour, text colour and alignment of this message's bubble.
    pub fn bubble_style(&self) -> (r: (&'static str, &'static str, &'static str))
        ensures
            (r.0@, r.1@, r.2@) == bubble_style(self.is_user),
    {
        if self.is_user {
            ("#3498db", "white", "flex-end")
        } else {
            ("#f1f0f0", "black", "flex-start")
        }
    }
}

/// State of the question-and-answer screen.
pub struct ChatTab {
    pub messages: Vec<Message>,
    pub input_text: String,
}

/// The content of a [`ChatTab`].
#[verifier::ext_equal]
pub struct ChatView {
    pub messages: Seq<MessageView>,
    pub input_text: Seq<char>,
}

impl View for ChatTab {
    type V = ChatView;

    open spec fn view(&self) -> ChatView {
        ChatView { messages: messages_view(self.messages@), input_text: self.input_text@ }
    }
}

/// The screen after the user sends what is in the input field: blank input
/// changes nothing; otherwise the trimmed text becomes the user's next
/// message and the field is cleared.
pub open spec fn chat_after_send(s: ChatView) -> ChatView {
    let t = trimmed(s.input_text);
    if t.len() == 0 {
        s
    } else {
        ChatView {
            messages: s.messages.push(MessageView { is_user: true, text: t }),
            input_text: Seq::empty(),
        }
    }
}

/// What sending logs: the trimmed text under "Chat", unless it is empty.
pub open spec fn chat_send_log(s: ChatView) -> Option<LogView> {
    let t = trimmed(s.input_text);
    if t.len() == 0 {
        None
    } else {
        Some(LogView { tab: "Chat"@, user_input: t, metadata: None })
    }
}

impl ChatTab {
    /// An empty conversation with an empty input field.
    pub fn new() -> (r: ChatTab)
        ensures
            r@ == (ChatView { messages: Seq::empty(), input_text: Seq::empty() }),
    {
        let r = ChatTab { messages: Vec::new(), input_text: String::new() };
        assert(r@.messages =~= Seq::<MessageView>::empty());
        r
    }

    /// Sends what the user typed and returns what is to be logged of it.
    pub fn send_message(&mut self) -> (r: Option<LogEntry>)
        ensures
            final(self)@ == chat_after_send(old(self)@),
            opt_log(r) == chat_send_log(old(self)@),
    {
        let text = trim(self.input_text.as_str());
        if text.as_str().is_empty() {
            return None;
        }
        let entry = LogEntry::new("Chat", text.as_str(), None);
        proof {
            lemma_messages_push(self.messages@, Message { is_user: true, text });
        }
        self.messages.push(Message { is_user: true, text });
        self.input_text = String::new();
        Some(entry)
    }
}


/// Trimming empty text gives empty text.
pub proof fn lemma_trimmed_empty()
    ensures
        trimmed(Seq::<char>::empty()) == Seq::<char>::empty(),
{
    assert(trim_start(Seq::<char>::empty()) == Seq::<char>::empty());
    assert(trim_end(Seq::<char>::empty()) == Seq::<char>::empty());
}

/// Sending input that is all whitespace (or empty) changes nothing and logs
/// nothing.
pub proof fn lemma_chat_blank_input_ignored(s: ChatView)
    requires
        is_blank(s.input_text),
    ensures
        chat_after_send(s) == s,
        chat_send_log(s) is None,
{
    lemma_trimmed_empty_iff_blank(s.input_text);
}

/// Sending other input appends exactly one message, the user's trimmed
/// text, keeps every earlier message, clears the field, and logs that same
/// text.
pub proof fn lemma_chat_send_appends_one(s: ChatView)
    requires
        !is_blank(s.input_text),
    ensures
        chat_after_send(s).messages.len() == s.messages.len() + 1,
        chat_after_send(s).messages.subrange(0, s.messages.len() as int) == s.messages,
        chat_after_send(s).messages.last() == (MessageView {
            is_user: true,
            text: trimmed(s.input_text),
        }),
        chat_after_send(s).input_text.len() == 0,
        chat_send_log(s) matches Some(l) && l.user_input == chat_after_send(s).messages.last().text,
        chat_send_log(s) == Some(
            LogView { tab: "Chat"@, user_input: trimmed(s.input_text), metadata: None },
        ),
{
    lemma_trimmed_empty_iff_blank(s.input_text);
    assert(chat_after_send(s).messages.subrange(0, s.messages.len() as int) =~= s.messages);
}

/// A question is sent once: sending again without typing changes nothing
/// and logs nothing.
pub proof fn lemma_chat_send_twice(s: ChatView)
    ensures
        chat_after_send(chat_after_send(s)) == chat_after_send(s),
        trimmed(s.input_text).len() > 0 ==> chat_send_log(chat_after_send(s)) is None,
{
    lemma_trimmed_empty();
}


/// The user's messages are blue, white-lettered and on the right; the
/// model's are light grey, black-lettered and on the left.
pub proof fn lemma_bubble_styles(is_user: bool)
    ensures
        is_user ==> bubble_style(is_user) == ("#3498db"@, "white"@, "flex-end"@),
        !is_user ==> bubble_style(is_user) == ("#f1f0f0"@, "black"@, "flex-start"@),
{
}

} // verus!
