//! The screen for questions about an attached storage-system log file.
use vstd::prelude::*;
use crate::text::{trim, trimmed, after_last, last_segment, concat2, concat3, concat4, is_blank, lemma_trimmed_empty_iff_blank, lemma_last_segment_shape};
use crate::log::{LogEntry, LogView, opt_log, opt_text};
use crate::chat::{Message, MessageView, messages_view, lemma_messages_push};

verus! {

/// One message of a request to the model backend.
pub struct ChatMessage {
    pub role: String,
    pub content: String,
}

/// A request to the model backend: the model, the conversation to answer,
/// no streaming, and the name of the attached file, by which the backend
/// finds the log itself.
pub struct ChatRequest {
    pub model: String,
    pub messages: Vec<ChatMessage>,
    pub stream: bool,
    pub file_name: String,
}

/// What sending a question yields: the entry to log and the request to send.
pub struct FileChatSubmission {
    pub log: LogEntry,
    pub request: ChatRequest,
}

/// State of the file question screen.
pub struct FileChatTab {
    pub messages: Vec<Message>,
    pub input_text: String,
    pub file_name: String,
    pub file_content: String,
    pub loading: bool,
}

/// The content of a [`FileChatTab`].
#[verifier::ext_equal]
pub struct FileChatView {
    pub messages: Seq<MessageView>,
    pub input_text: Seq<char>,
    pub file_name: Seq<char>,
    pub file_content: Seq<char>,
    pub loading: bool,
}

impl View for FileChatTab {
    type V = FileChatView;

    open spec fn view(&self) -> FileChatView {
        FileChatView {
            messages: messages_view(self.messages@),
            input_text: self.input_text@,
            file_name: self.file_name@,
            file_content: self.file_content@,
            loading: self.loading,
        }
    }
}

/// The name of a chosen file: its path after the last backslash.
pub open spec fn file_name_of(path: Seq<char>) -> Seq<char> {
    last_segment(path, '\\')
}

/// The context note that stands for an attached file.
pub open spec fn context_note(name: Seq<char>) -> Seq<char> {
    "[Файл контекста: "@ + name + "]"@
}

/// The screen after the user picks the file at `path`: an empty path
/// changes nothing; otherwise the file's name and its context note are kept.
pub open spec fn after_attach(s: FileChatView, path: Seq<char>) -> FileChatView {
    if path.len() == 0 {
        s
    } else {
        FileChatView {
            file_name: file_name_of(path),
            file_content: context_note(file_name_of(path)),
            ..s
        }
    }
}

/// What picking a file logs.
pub open spec fn attach_log(path: Seq<char>) -> Option<LogView> {
    if path.len() == 0 {
        None
    } else {
        Some(
            LogView {
                tab: "File Chat"@,
                user_input: "Прикреплен контекст файла: "@ + file_name_of(path),
                metadata: None,
            },
        )
    }
}

/// The prompt for `query` about the file `file`; the bare query when no
/// file is attached.
pub open spec fn prompt_for(file: Seq<char>, query: Seq<char>) -> Seq<char> {
    if file.len() == 0 {
        query
    } else {
        "Контекст: Пользователь прикрепил лог СХД '"@ + file
            + "'. Проанализируй его и ответь на вопрос: "@ + query
    }
}

/// The screen after the user sends a question: blank input changes nothing;
/// otherwise the trimmed question becomes the user's next message, the
/// field is cleared and the screen waits for the answer.
pub open spec fn after_send(s: FileChatView) -> FileChatView {
    let q = trimmed(s.input_text);
    if q.len() == 0 {
        s
    } else {
        FileChatView {
            messages: s.messages.push(MessageView { is_user: true, text: q }),
            input_text: Seq::empty(),
            loading: true,
            ..s
        }
    }
}

/// `r` puts the single user message `content` to the backend's model,
/// naming `file`.
pub open spec fn is_request_for(r: ChatRequest, content: Seq<char>, file: Seq<char>) -> bool {
    &&& r.model@ == "deepseek-coder-v2"@
    &&& r.messages@.len() == 1
    &&& r.messages@[0].role@ == "user"@
    &&& r.messages@[0].content@ == content
    &&& !r.stream
    &&& r.file_name@ == file
}

/// `sub` is what sending from screen `s` yields: the request carries the
/// question in the context of the attached file.
pub open spec fn is_submission_for(sub: FileChatSubmission, s: FileChatView) -> bool {
    let q = trimmed(s.input_text);
    &&& sub.log@ == (LogView {
        tab: "File Chat"@,
        user_input: q,
        metadata: Some("Файл: "@ + s.file_name),
    })
    &&& is_request_for(sub.request, prompt_for(s.file_name, q), s.file_name)
}

/// The screen after the backend answered with `reply`, or failed (`None`):
/// an answer becomes the model's next message; either way the wait ends.
pub open spec fn after_reply(s: FileChatView, reply: Option<Seq<char>>) -> FileChatView {
    match reply {
        Some(c) => FileChatView {
            messages: s.messages.push(MessageView { is_user: false, text: c }),
            loading: false,
            ..s
        },
        None => FileChatView { loading: false, ..s },
    }
}

/// The string that the JSON document `text` holds at the JSON pointer
/// `pointer`; `None` where `text` is no JSON document, nothing stands at
/// `pointer`, or what stands there is not a string.
pub uninterp spec fn json_text_at(text: Seq<char>, pointer: Seq<char>) -> Option<Seq<char>>;

/// Reads the string at `pointer` in the JSON document `text` with
/// `serde_json::from_str` into a `serde_json::Value`, then `Value::pointer`
/// and `Value::as_str`. The contract claims only that the result is
/// determined by the two texts (the name `json_text_at`); what JSON parsing
/// and pointer lookup give is left to serde_json and not stated here.
#[verifier::external_body]
fn read_json_text_at(text: &str, pointer: &str) -> (r: Option<String>)
    ensures
        opt_text(r) == json_text_at(text@, pointer@),
{
    let document: serde_json::Value = match serde_json::from_str(text) {
        Ok(v) => v,
        Err(_) => return None,
    };
    match document.pointer(pointer) {
        Some(found) => found.as_str().map(String::from),
        None => None,
    }
}

/// The answer that a backend response body holds: the string at
/// `/message/content`; no answer where no body came.
pub open spec fn reply_in(body: Option<Seq<char>>) -> Option<Seq<char>> {
    match body {
        Some(text) => json_text_at(text, "/message/content"@),
        None => None,
    }
}

/// The name of the file at `path`.
pub fn file_name_from_path(path: &str) -> (r: String)
    ensures
        r@ == file_name_of(path@),
{
    after_last(path, '\\')
}

/// The prompt that presents `query` in the context of the file `file`.
pub fn build_prompt(file: &str, query: &str) -> (r: String)
    ensures
        r@ == prompt_for(file@, query@),
{
    if file.is_empty() {
        String::from_str(query)
    } else {
        concat4(
            "Контекст: Пользователь прикрепил лог СХД '",
            file,
            "'. Проанализируй его и ответь на вопрос: ",
            query,
        )
    }
}

impl FileChatTab {
    /// No messages, no input, no file, not waiting.
    pub fn new() -> (r: FileChatTab)
        ensures
            r@ == (FileChatView {
                messages: Seq::empty(),
                input_text: Seq::empty(),
                file_name: Seq::empty(),
                file_content: Seq::empty(),
                loading: false,
            }),
    {
        let r = FileChatTab {
            messages: Vec::new(),
            input_text: String::new(),
            file_name: String::new(),
            file_content: String::new(),
            loading: false,
        };
        assert(r@.messages =~= Seq::<MessageView>::empty());
        r
    }

    /// Attaches the file the user picked at `full_path`; returns what is to
    /// be logged of it.
    pub fn on_file_change(&mut self, full_path: &str) -> (r: Option<LogEntry>)
        ensures
            final(self)@ == after_attach(old(self)@, full_path@),
            opt_log(r) == attach_log(full_path@),
    {
        if full_path.is_empty() {
            return None;
        }
        let name = file_name_from_path(full_path);
        let note = concat2("Прикреплен контекст файла: ", name.as_str());
        let entry = LogEntry::new("File Chat", note.as_str(), None);
        self.file_content = concat3("[Файл контекста: ", name.as_str(), "]");
        self.file_name = name;
        Some(entry)
    }

    /// Sends the user's question: returns what is to be logged and the
    /// request for the backend, or `None` for blank input.
    pub fn send_message(&mut self) -> (r: Option<FileChatSubmission>)
        ensures
            final(self)@ == after_send(old(self)@),
            trimmed(old(self)@.input_text).len() == 0 <==> r is None,
            r matches Some(sub) ==> is_submission_for(sub, old(self)@),
    {
        let query = trim(self.input_text.as_str());
        if query.as_str().is_empty() {
            return None;
        }
        self.loading = true;
        let shown = query.clone();
        proof {
            lemma_messages_push(self.messages@, Message { is_user: true, text: shown });
        }
        self.messages.push(Message { is_user: true, text: shown });
        self.input_text = String::new();
        let attached = self.file_name.clone();
        let prompt = build_prompt(attached.as_str(), query.as_str());
        let detail = concat2("Файл: ", attached.as_str());
        let log = LogEntry::new("File Chat", query.as_str(), Some(detail));
        let mut messages: Vec<ChatMessage> = Vec::new();
        messages.push(ChatMessage { role: String::from_str("user"), content: prompt });
        let request = ChatRequest {
            model: String::from_str("deepseek-coder-v2"),
            messages,
            stream: false,
            file_name: attached,
        };
        Some(FileChatSubmission { log, request })
    }

    /// Takes the backend's answer, or `None` where none came.
    pub fn receive_reply(&mut self, reply: Option<String>)
        ensures
            final(self)@ == after_reply(old(self)@, opt_text(reply)),
    {
        match reply {
            Some(content) => {
                proof {
                    lemma_messages_push(self.messages@, Message { is_user: false, text: content });
                }
                self.messages.push(Message { is_user: false, text: content });
            },
            None => {},
        }
        self.loading = false;
    }

    /// Takes the backend's response body, or `None` where the request or
    /// reading its body failed: the answer at `/message/content`, if any,
    /// becomes the model's next message; either way the wait ends.
    pub fn receive_response(&mut self, body: Option<String>)
        ensures
            final(self)@ == after_reply(old(self)@, reply_in(opt_text(body))),
    {
        let reply = match body {
            Some(text) => read_json_text_at(text.as_str(), "/message/content"),
            None => None,
        };
        self.receive_reply(reply);
    }

    /// The hint shown in the empty input field.
    pub fn input_placeholder(&self) -> (r: &'static str)
        ensures
            r@ == (if self.file_name@.len() == 0 {
                "Задайте вопрос или прикрепите файл..."@
            } else {
                "Задайте вопрос по контексту файла..."@
            }),
    {
        if self.file_name.as_str().is_empty() {
            "Задайте вопрос или прикрепите файл..."
        } else {
            "Задайте вопрос по контексту файла..."
        }
    }

    /// The label that names the attached file, or `None` when there is none.
    pub fn attached_label(&self) -> (r: Option<String>)
        ensures
            opt_text(r) == (if self.file_name@.len() == 0 {
                None
            } else {
                Some("✓ "@ + self.file_name@)
            }),
    {
        if self.file_name.as_str().is_empty() {
            None
        } else {
            Some(concat2("✓ ", self.file_name.as_str()))
        }
    }
}


/// Picking a file keeps a name without any backslash, the tail of the path
/// after its last backslash (the whole path when it has none), and the note
/// that names it; nothing else on the screen changes.
pub proof fn lemma_attach_keeps_plain_name(s: FileChatView, path: Seq<char>)
    requires
        path.len() > 0,
    ensures
        !after_attach(s, path).file_name.contains('\\'),
        after_attach(s, path).file_name == path.subrange(
            path.len() - after_attach(s, path).file_name.len(),
            path.len() as int,
        ),
        !path.contains('\\') ==> after_attach(s, path).file_name == path,
        after_attach(s, path).file_content == context_note(after_attach(s, path).file_name),
        after_attach(s, path).messages == s.messages,
        after_attach(s, path).input_text == s.input_text,
        after_attach(s, path).loading == s.loading,
{
    lemma_last_segment_shape(path, '\\');
}

/// A question followed by its answer adds the user's trimmed question and
/// then the model's answer to the conversation, keeps the attached file and
/// ends the wait; a failed request adds only the question.
pub proof fn lemma_question_then_answer(s: FileChatView, answer: Option<Seq<char>>)
    requires
        !is_blank(s.input_text),
    ensures
        after_send(s).loading,
        !after_reply(after_send(s), answer).loading,
        after_reply(after_send(s), answer).messages == (match answer {
            Some(c) => s.messages.push(MessageView { is_user: true, text: trimmed(s.input_text) }).push(
                MessageView { is_user: false, text: c },
            ),
            None => s.messages.push(MessageView { is_user: true, text: trimmed(s.input_text) }),
        }),
        after_reply(after_send(s), answer).file_name == s.file_name,
        after_reply(after_send(s), answer).input_text.len() == 0,
{
    lemma_trimmed_empty_iff_blank(s.input_text);
}

/// Blank input sends nothing and leaves the screen as it was.
pub proof fn lemma_file_chat_blank_input_ignored(s: FileChatView)
    requires
        is_blank(s.input_text),
    ensures
        after_send(s) == s,
{
    lemma_trimmed_empty_iff_blank(s.input_text);
}


/// With a file attached, the prompt names the file and asks the question,
/// whatever the question is:
/// "Контекст: Пользователь прикрепил лог СХД '<file>'. Проанализируй его и
/// ответь на вопрос: <query>"; without a file it is the question alone.
pub proof fn lemma_prompt_text(file: Seq<char>, query: Seq<char>)
    ensures
        file.len() > 0 ==> prompt_for(file, query) == "Контекст: Пользователь прикрепил лог СХД '"@
            + file + "'. Проанализируй его и ответь на вопрос: "@ + query,
        file.len() == 0 ==> prompt_for(file, query) == query,
        file.len() > 0 ==> prompt_for(file, query).subrange(
            prompt_for(file, query).len() - query.len(),
            prompt_for(file, query).len() as int,
        ) == query,
{
    if file.len() > 0 {
        let p = prompt_for(file, query);
        assert(p.subrange(p.len() - query.len(), p.len() as int) =~= query);
    }
}

/// The answer taken from a response body is the string at the JSON
/// pointer `/message/content` of that body, whatever its length; no body
/// gives no answer.
pub proof fn lemma_reply_is_message_content(body: Option<Seq<char>>)
    ensures
        body matches Some(b) ==> reply_in(body) == json_text_at(b, "/message/content"@),
        body is None ==> reply_in(body) is None,
{
}

/// A sent file question is logged under "File Chat" with the trimmed
/// question and "Файл: <file>" as details; the request asks model
/// "deepseek-coder-v2", without streaming, one user message, naming the
/// attached file; with a file attached that message presents the question
/// in the file's context, without one it is the question itself.
pub proof fn lemma_submission_fields(sub: FileChatSubmission, s: FileChatView)
    requires
        is_submission_for(sub, s),
    ensures
        sub.log@.tab == "File Chat"@,
        sub.log@.user_input == trimmed(s.input_text),
        sub.log@.metadata == Some("Файл: "@ + s.file_name),
        sub.request.model@ == "deepseek-coder-v2"@,
        !sub.request.stream,
        sub.request.file_name@ == s.file_name,
        sub.request.messages@.len() == 1,
        sub.request.messages@[0].role@ == "user"@,
        s.file_name.len() > 0 ==> sub.request.messages@[0].content@
            == "Контекст: Пользователь прикрепил лог СХД '"@ + s.file_name
            + "'. Проанализируй его и ответь на вопрос: "@ + trimmed(s.input_text),
        s.file_name.len() == 0 ==> sub.request.messages@[0].content@ == trimmed(s.input_text),
{
    lemma_prompt_text(s.file_name, trimmed(s.input_text));
}

/// Picking a file logs "Прикреплен контекст файла: <name>" under
/// "File Chat" and keeps the note "[Файл контекста: <name>]", where the name
/// is what follows the path's last backslash.
pub proof fn lemma_attach_texts(s: FileChatView, path: Seq<char>)
    requires
        path.len() > 0,
    ensures
        attach_log(path) == Some(
            LogView {
                tab: "File Chat"@,
                user_input: "Прикреплен контекст файла: "@ + after_attach(s, path).file_name,
                metadata: None,
            },
        ),
        after_attach(s, path).file_content == "[Файл контекста: "@ + after_attach(s, path).file_name
            + "]"@,
        path.contains('\\') ==> path[path.len() - after_attach(s, path).file_name.len() - 1]
            == '\\',
{
    lemma_last_segment_shape(path, '\\');
}

} // verus!
