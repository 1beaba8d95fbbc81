//! History of a chat with a local model, built from the streamed chunks of
//! its replies.
use vstd::prelude::*;
use vstd::string::*;

use crate::api::chat::{message_views, MessageRole, MessageView};
use crate::text::{decimal, decimal_string};

pub use crate::chat::conversation::{ModelInfo, ModelInfoView, ResponseStatus};

verus! {

/// Who or what a history entry comes from.
#[derive(Clone, Copy, Debug, PartialEq, Eq, Structural)]
pub enum Role {
    User,
    Assistant,
    Thinking,
    Info,
    Error,
}

/// One entry of the history.
pub struct Message {
    pub role: Role,
    pub text: String,
}

pub struct EntryView {
    pub role: Role,
    pub text: Seq<char>,
}

impl View for Message {
    type V = EntryView;

    open spec fn view(&self) -> EntryView {
        EntryView { role: self.role, text: self.text@ }
    }
}

impl Message {
    fn with_role(role: Role, text: &str) -> (res: Self)
        ensures
            res@ == (EntryView { role, text: text@ }),
    {
        Message { role, text: text.to_owned() }
    }

    pub fn user(text: &str) -> (res: Self)
        ensures
            res@ == (EntryView { role: Role::User, text: text@ }),
    {
        Self::with_role(Role::User, text)
    }

    pub fn assistant(text: &str) -> (res: Self)
        ensures
            res@ == (EntryView { role: Role::Assistant, text: text@ }),
    {
        Self::with_role(Role::Assistant, text)
    }

    pub fn thinking(text: &str) -> (res: Self)
        ensures
            res@ == (EntryView { role: Role::Thinking, text: text@ }),
    {
        Self::with_role(Role::Thinking, text)
    }

    pub fn info(text: &str) -> (res: Self)
        ensures
            res@ == (EntryView { role: Role::Info, text: text@ }),
    {
        Self::with_role(Role::Info, text)
    }

    pub fn error(text: &str) -> (res: Self)
        ensures
            res@ == (EntryView { role: Role::Error, text: text@ }),
    {
        Self::with_role(Role::Error, text)
    }
}

/// The views of a list of history entries.
pub open spec fn entry_views(v: Seq<Message>) -> Seq<EntryView> {
    v.map_values(|m: Message| m@)
}

/// One streamed chunk of the model's reply, as the chat reads it.
pub struct StreamChunk {
    /// Content text of the chunk.
    pub content: String,
    /// Thinking trace of the chunk, when the model sends one.
    pub thinking: Option<String>,
    /// Tokens in the prompt and tokens generated, sent with the last chunk.
    pub final_counts: Option<(u64, u64)>,
    /// Whether the reply is complete.
    pub done: bool,
}

/// Abstract state of a [`Conversation`].
pub struct ConversationView {
    pub messages: Seq<EntryView>,
    pub system_prompt: Option<Seq<char>>,
    pub model_info: ModelInfoView,
    pub status: ResponseStatus,
}

/// The status the text of `chunk` puts a reply in: thinking for a thinking
/// trace, receiving for content.
pub open spec fn chunk_kind(chunk: StreamChunk) -> ResponseStatus {
    if chunk.thinking is Some {
        ResponseStatus::Thinking
    } else {
        ResponseStatus::ReceiveResponse
    }
}

impl ConversationView {
    /// Whether `chunk` can be taken in: a chunk that continues the text the
    /// reply is in appends to the last entry, so there must be one.
    pub open spec fn accepts_chunk(self, chunk: StreamChunk) -> bool {
        self.status == chunk_kind(chunk) ==> self.messages.len() > 0
    }
}

/// The line that reports the token counts of a finished reply.
pub open spec fn token_count_text(sent: nat, received: nat) -> Seq<char> {
    "Tokens sent: "@ + decimal(sent) + " | received: "@ + decimal(received)
}

/// `messages` with `text` appended to the text of the last entry.
pub open spec fn append_to_last(messages: Seq<EntryView>, text: Seq<char>) -> Seq<EntryView> {
    messages.update(
        messages.len() - 1,
        EntryView { role: messages.last().role, text: messages.last().text + text },
    )
}

/// The history after the text of a chunk: a thinking trace goes to the last
/// entry, after starting an empty thinking entry unless the reply is
/// already thinking; content likewise, with an assistant entry unless the
/// reply is already being received. Then a finished reply with counts gets
/// an information line, and a done reply lets the conversation wait.
pub open spec fn chunk_step(c: ConversationView, chunk: StreamChunk) -> ConversationView {
    let (messages, status) = match chunk.thinking {
        Some(t) => {
            let base = if c.status != ResponseStatus::Thinking {
                c.messages.push(EntryView { role: Role::Thinking, text: Seq::empty() })
            } else {
                c.messages
            };
            (append_to_last(base, t@), ResponseStatus::Thinking)
        },
        None => {
            let base = if c.status != ResponseStatus::ReceiveResponse {
                c.messages.push(EntryView { role: Role::Assistant, text: Seq::empty() })
            } else {
                c.messages
            };
            (append_to_last(base, chunk.content@), ResponseStatus::ReceiveResponse)
        },
    };
    let messages = match chunk.final_counts {
        Some((sent, received)) => messages.push(
            EntryView { role: Role::Info, text: token_count_text(sent as nat, received as nat) },
        ),
        None => messages,
    };
    ConversationView {
        messages,
        status: if chunk.done { ResponseStatus::Waiting } else { status },
        ..c
    }
}

/// The index of the last user entry, if any.
pub open spec fn last_user_index(messages: Seq<EntryView>) -> Option<int>
    decreases messages.len(),
{
    if messages.len() == 0 {
        None
    } else if messages.last().role == Role::User {
        Some(messages.len() - 1)
    } else {
        last_user_index(messages.drop_last())
    }
}

/// The message sent to the model for a history entry: user and assistant
/// text are sent, the other entries are not.
pub open spec fn client_message(e: EntryView) -> Option<MessageView> {
    match e.role {
        Role::User => Some(MessageView::text(MessageRole::User, e.text)),
        Role::Assistant => Some(MessageView::text(MessageRole::Assistant, e.text)),
        _ => None,
    }
}

/// The messages sent to the model for a history, in order.
pub open spec fn client_history(messages: Seq<EntryView>) -> Seq<MessageView>
    decreases messages.len(),
{
    if messages.len() == 0 {
        Seq::empty()
    } else {
        match client_message(messages.last()) {
            Some(m) => client_history(messages.drop_last()).push(m),
            None => client_history(messages.drop_last()),
        }
    }
}

/// Only user and assistant text goes to the model: a thinking trace, an
/// information line such as the token counts, or an error line added to the
/// history leaves the messages sent unchanged.
pub proof fn lemma_other_entries_are_not_sent(messages: Seq<EntryView>, entry: EntryView)
    requires
        entry.role != Role::User,
        entry.role != Role::Assistant,
    ensures
        client_history(messages.push(entry)) == client_history(messages),
{
    assert(messages.push(entry).drop_last() =~= messages);
}

/// What the user submits is what the model receives last: the messages
/// sent for a history that ends with a user entry end with that entry's
/// text, after those sent for the history before it.
pub proof fn lemma_user_text_is_sent_last(messages: Seq<EntryView>, text: Seq<char>)
    ensures
        client_history(messages.push(EntryView { role: Role::User, text })) == client_history(
            messages,
        ).push(MessageView::text(MessageRole::User, text)),
{
    assert(messages.push(EntryView { role: Role::User, text }).drop_last() =~= messages);
}

/// A reply streamed in pieces gives the same history as the same reply in
/// one piece: two content chunks in a row (neither finished nor carrying
/// counts) leave what one chunk with their concatenated content leaves.
pub proof fn lemma_content_chunks_concatenate(
    c: ConversationView,
    first: StreamChunk,
    second: StreamChunk,
    whole: StreamChunk,
)
    requires
        first.thinking is None && second.thinking is None && whole.thinking is None,
        first.final_counts is None && second.final_counts is None && whole.final_counts is None,
        !first.done && !second.done && !whole.done,
        whole.content@ == first.content@ + second.content@,
        c.accepts_chunk(first),
    ensures
        chunk_step(chunk_step(c, first), second) == chunk_step(c, whole),
{
    let m1 = chunk_step(c, first).messages;
    let base = if c.status != ResponseStatus::ReceiveResponse {
        c.messages.push(EntryView { role: Role::Assistant, text: Seq::empty() })
    } else {
        c.messages
    };
    assert(m1 == append_to_last(base, first.content@));
    assert(base.len() > 0);
    assert(m1.last().text == base.last().text + first.content@);
    assert(base.last().text + first.content@ + second.content@ =~= base.last().text
        + whole.content@);
    assert(append_to_last(m1, second.content@) =~= append_to_last(base, whole.content@));
}

/// Owns the chat history and injects a system prompt when present.
pub struct Conversation {
    messages: Vec<Message>,
    system_prompt: Option<String>,
    model_info: ModelInfo,
    response_status: ResponseStatus,
}

impl View for Conversation {
    type V = ConversationView;

    closed spec fn view(&self) -> ConversationView {
        ConversationView {
            messages: entry_views(self.messages@),
            system_prompt: self.system_prompt.deep_view(),
            model_info: self.model_info@,
            status: self.response_status,
        }
    }
}

impl Conversation {
    pub fn new(system_prompt: Option<String>, model_info: ModelInfo) -> (res: Self)
        ensures
            res@ == (ConversationView {
                messages: Seq::empty(),
                system_prompt: system_prompt.deep_view(),
                model_info: model_info@,
                status: ResponseStatus::Waiting,
            }),
    {
        let res = Conversation {
            messages: Vec::new(),
            system_prompt,
            model_info,
            response_status: ResponseStatus::Waiting,
        };
        proof {
            assert(res@.messages =~= Seq::<EntryView>::empty());
        }
        res
    }

    /// The model used in this conversation.
    pub fn model_info(&self) -> (res: &ModelInfo)
        ensures
            res@ == self@.model_info,
    {
        &self.model_info
    }

    pub fn push_user(&mut self, text: String)
        ensures
            final(self)@ == (ConversationView {
                messages: old(self)@.messages.push(EntryView { role: Role::User, text: text@ }),
                ..old(self)@
            }),
    {
        self.messages.push(Message { role: Role::User, text });
        proof {
            assert(entry_views(self.messages@) =~= old(self)@.messages.push(
                EntryView { role: Role::User, text: text@ },
            ));
        }
    }

    fn append_last(&mut self, text: &str)
        requires
            old(self)@.messages.len() > 0,
        ensures
            final(self)@ == (ConversationView {
                messages: append_to_last(old(self)@.messages, text@),
                ..old(self)@
            }),
    {
        let last = self.messages.pop();
        match last {
            Some(m) => {
                let mut m = m;
                m.text.append(text);
                self.messages.push(m);
                proof {
                    assert(entry_views(self.messages@) =~= append_to_last(old(self)@.messages, text@));
                }
            },
            None => {},
        }
    }

    /// Adds a response chunk.
    pub fn push_chunk(&mut self, response: StreamChunk)
        requires
            old(self)@.accepts_chunk(response),
        ensures
            final(self)@ == chunk_step(old(self)@, response),
            final(self)@.messages.len() > 0,
    {
        match &response.thinking {
            Some(thinking) => {
                if self.response_status != ResponseStatus::Thinking {
                    self.messages.push(Message::thinking(""));
                    proof {
                        assert(entry_views(self.messages@) =~= old(self)@.messages.push(
                            EntryView { role: Role::Thinking, text: ""@ },
                        ));
                        reveal_strlit("");
                        assert(""@ =~= Seq::<char>::empty());
                    }
                }
                self.append_last(thinking.as_str());
                self.response_status = ResponseStatus::Thinking;
            },
            None => {
                if self.response_status != ResponseStatus::ReceiveResponse {
                    self.messages.push(Message::assistant(""));
                    proof {
                        assert(entry_views(self.messages@) =~= old(self)@.messages.push(
                            EntryView { role: Role::Assistant, text: ""@ },
                        ));
                        reveal_strlit("");
                        assert(""@ =~= Seq::<char>::empty());
                    }
                }
                self.append_last(response.content.as_str());
                self.response_status = ResponseStatus::ReceiveResponse;
            },
        }
        match response.final_counts {
            Some((sent, received)) => {
                let mut text = String::new();
                text.append("Tokens sent: ");
                let s = decimal_string(sent);
                text.append(s.as_str());
                text.append(" | received: ");
                let r = decimal_string(received);
                text.append(r.as_str());
                let ghost before = entry_views(self.messages@);
                self.messages.push(Message { role: Role::Info, text });
                proof {
                    assert(text@ =~= token_count_text(sent as nat, received as nat));
                    assert(entry_views(self.messages@) =~= before.push(
                        EntryView { role: Role::Info, text: token_count_text(sent as nat, received as nat) },
                    ));
                }
            },
            None => {},
        }
        if response.done {
            self.response_status = ResponseStatus::Waiting;
        }
    }

    /// The full history.
    pub fn messages(&self) -> (res: &[Message])
        ensures
            entry_views(res@) == self@.messages,
    {
        self.messages.as_slice()
    }

    pub fn response_status(&self) -> (res: ResponseStatus)
        ensures
            res == self@.status,
    {
        self.response_status
    }

    /// The messages sent to the model: the system prompt where there is one,
    /// then the user and assistant entries.
    pub fn client_messages(&self) -> (res: Vec<crate::api::chat::Message>)
        ensures
            message_views(res@) == match self@.system_prompt {
                Some(p) => seq![MessageView::text(MessageRole::System, p)],
                None => Seq::empty(),
            } + client_history(self@.messages),
    {
        let mut all: Vec<crate::api::chat::Message> = Vec::new();
        match &self.system_prompt {
            Some(prompt) => all.push(crate::api::chat::Message::system(prompt.as_str())),
            None => {},
        }
        let ghost head = message_views(all@);
        let ghost msgs = self@.messages;
        let mut i: usize = 0;
        proof {
            assert(msgs.take(0) =~= Seq::<EntryView>::empty());
            assert(message_views(all@) =~= head + client_history(msgs.take(0)));
        }
        while i < self.messages.len()
            invariant
                i <= self.messages@.len(),
                msgs == entry_views(self.messages@),
                message_views(all@) == head + client_history(msgs.take(i as int)),
            decreases self.messages@.len() - i,
        {
            let m = &self.messages[i];
            let ghost before = message_views(all@);
            let ghost next = msgs.take(i + 1);
            proof {
                assert(next.drop_last() =~= msgs.take(i as int));
                assert(next.last() == m@);
            }
            match m.role {
                Role::User => {
                    all.push(crate::api::chat::Message::user(m.text.as_str()));
                    proof {
                        assert(message_views(all@) =~= before.push(MessageView::text(MessageRole::User, m.text@)));
                    }
                },
                Role::Assistant => {
                    all.push(crate::api::chat::Message::assistant(m.text.as_str()));
                    proof {
                        assert(message_views(all@) =~= before.push(MessageView::text(MessageRole::Assistant, m.text@)));
                    }
                },
                _ => {},
            }
            i += 1;
        }
        proof {
            assert(msgs.take(self.messages@.len() as int) =~= msgs);
        }
        all
    }

    /// Empties the history; the system prompt stays.
    pub fn clear(&mut self)
        ensures
            final(self)@ == (ConversationView { messages: Seq::empty(), ..old(self)@ }),
    {
        self.messages.clear();
        proof {
            assert(entry_views(self.messages@) =~= Seq::<EntryView>::empty());
        }
    }

    /// Removes the last user entry, if any.
    pub fn pop_last_user(&mut self)
        ensures
            final(self)@ == (ConversationView {
                messages: match last_user_index(old(self)@.messages) {
                    Some(p) => old(self)@.messages.remove(p),
                    None => old(self)@.messages,
                },
                ..old(self)@
            }),
    {
        let ghost msgs = old(self)@.messages;
        let mut i = self.messages.len();
        proof {
            assert(msgs.take(i as int) =~= msgs);
        }
        while i > 0 && self.messages[i - 1].role != Role::User
            invariant
                i <= self.messages@.len(),
                msgs == entry_views(self.messages@),
                last_user_index(msgs) == last_user_index(msgs.take(i as int)),
            decreases i,
        {
            proof {
                assert(msgs.take(i as int).drop_last() =~= msgs.take(i - 1));
                assert(msgs.take(i as int).last() == self.messages@[i - 1]@);
            }
            i -= 1;
        }
        if i > 0 {
            proof {
                assert(msgs.take(i as int).last() == self.messages@[i - 1]@);
                assert(last_user_index(msgs.take(i as int)) == Some(i - 1));
            }
            self.messages.remove(i - 1);
            proof {
                assert(entry_views(self.messages@) =~= msgs.remove(i - 1));
            }
        } else {
            proof {
                assert(msgs.take(0) =~= Seq::<EntryView>::empty());
            }
        }
    }
}

} // verus!
