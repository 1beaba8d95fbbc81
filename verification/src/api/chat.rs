//! Chat requests and the streamed chat responses of the provider.
use vstd::prelude::*;

use crate::text::concat;

verus! {

/// Author of a chat message.
#[derive(Clone, Copy, Debug, PartialEq, Eq, Structural)]
pub enum MessageRole {
    System,
    User,
    Assistant,
    Tool,
}

/// Why the model stopped generating.
#[derive(Clone, Copy, Debug, PartialEq, Eq, Structural)]
pub enum FinishReason {
    Stop,
    Length,
    ToolCalls,
}

/// The function part of a tool call; in a stream each field may come in
/// fragments spread over several chunks.
pub struct ToolCallFunction {
    /// Position of the call among the calls of one reply.
    pub index: Option<u32>,
    pub name: String,
    /// JSON text of the arguments.
    pub arguments: String,
}

pub struct ToolCallFunctionView {
    pub index: Option<u32>,
    pub name: Seq<char>,
    pub arguments: Seq<char>,
}

impl View for ToolCallFunction {
    type V = ToolCallFunctionView;

    open spec fn view(&self) -> ToolCallFunctionView {
        ToolCallFunctionView { index: self.index, name: self.name@, arguments: self.arguments@ }
    }
}

impl Clone for ToolCallFunction {
    fn clone(&self) -> (res: Self)
        ensures
            res@ == self@,
    {
        ToolCallFunction {
            index: self.index,
            name: self.name.clone(),
            arguments: self.arguments.clone(),
        }
    }
}

/// A tool call requested by the model.
pub struct ToolCallMessage {
    pub id: String,
    pub index: u32,
    pub function: ToolCallFunction,
}

pub struct ToolCallMessageView {
    pub id: Seq<char>,
    pub index: u32,
    pub function: ToolCallFunctionView,
}

impl View for ToolCallMessage {
    type V = ToolCallMessageView;

    open spec fn view(&self) -> ToolCallMessageView {
        ToolCallMessageView { id: self.id@, index: self.index, function: self.function@ }
    }
}

impl Clone for ToolCallMessage {
    fn clone(&self) -> (res: Self)
        ensures
            res@ == self@,
    {
        ToolCallMessage { id: self.id.clone(), index: self.index, function: self.function.clone() }
    }
}

/// The views of a list of tool calls.
pub open spec fn tool_call_views(v: Seq<ToolCallMessage>) -> Seq<ToolCallMessageView> {
    v.map_values(|t: ToolCallMessage| t@)
}

fn clone_tool_calls(v: &Vec<ToolCallMessage>) -> (res: Vec<ToolCallMessage>)
    ensures
        tool_call_views(res@) == tool_call_views(v@),
{
    let mut res: Vec<ToolCallMessage> = Vec::new();
    let mut i: usize = 0;
    while i < v.len()
        invariant
            i <= v@.len(),
            res@.len() == i,
            tool_call_views(res@) == tool_call_views(v@).take(i as int),
        decreases v@.len() - i,
    {
        let c = v[i].clone();
        let ghost before = res@;
        res.push(c);
        proof {
            assert(c@ == v@[i as int]@);
            assert(res@ == before.push(c));
            assert forall|j: int| 0 <= j < i + 1 implies #[trigger] tool_call_views(res@)[j]
                == tool_call_views(v@).take(i + 1)[j] by {
                assert(tool_call_views(res@)[j] == res@[j]@);
                assert(tool_call_views(v@).take(i + 1)[j] == v@[j]@);
                if j < i {
                    assert(res@[j] == before[j]);
                    assert(tool_call_views(before)[j] == tool_call_views(v@).take(i as int)[j]);
                    assert(before[j]@ == v@[j]@);
                } else {
                    assert(res@[j] == c);
                }
            }
            assert(tool_call_views(res@) =~= tool_call_views(v@).take(i + 1));
        }
        i += 1;
    }
    proof {
        assert(tool_call_views(v@).take(v@.len() as int) =~= tool_call_views(v@));
    }
    res
}

/// One message of a chat history.
pub struct Message {
    /// Author of the message; in a stream it may be missing after the first
    /// chunk.
    pub role: Option<MessageRole>,
    pub content: String,
    /// Base64-encoded images for multimodal models.
    pub images: Vec<String>,
    /// Tool calls requested by the model.
    pub tool_calls: Vec<ToolCallMessage>,
    /// The call that a tool message answers.
    pub tool_call_id: Option<String>,
}

pub struct MessageView {
    pub role: Option<MessageRole>,
    pub content: Seq<char>,
    pub images: Seq<Seq<char>>,
    pub tool_calls: Seq<ToolCallMessageView>,
    pub tool_call_id: Option<Seq<char>>,
}

impl View for Message {
    type V = MessageView;

    open spec fn view(&self) -> MessageView {
        MessageView {
            role: self.role,
            content: self.content@,
            images: self.images.deep_view(),
            tool_calls: tool_call_views(self.tool_calls@),
            tool_call_id: self.tool_call_id.deep_view(),
        }
    }
}

impl MessageView {
    /// A message with only a role and a text.
    pub open spec fn text(role: MessageRole, content: Seq<char>) -> MessageView {
        MessageView {
            role: Some(role),
            content,
            images: Seq::empty(),
            tool_calls: Seq::empty(),
            tool_call_id: None,
        }
    }
}

impl Message {
    fn with_role(role: MessageRole, content: &str) -> (res: Self)
        ensures
            res@ == MessageView::text(role, content@),
    {
        let res = Message {
            role: Some(role),
            content: content.to_owned(),
            images: Vec::new(),
            tool_calls: Vec::new(),
            tool_call_id: None,
        };
        proof {
            assert(res@.images =~= Seq::<Seq<char>>::empty());
            assert(res@.tool_calls =~= Seq::<ToolCallMessageView>::empty());
        }
        res
    }

    pub fn system(content: &str) -> (res: Self)
        ensures
            res@ == MessageView::text(MessageRole::System, content@),
    {
        Self::with_role(MessageRole::System, content)
    }

    pub fn user(content: &str) -> (res: Self)
        ensures
            res@ == MessageView::text(MessageRole::User, content@),
    {
        Self::with_role(MessageRole::User, content)
    }

    pub fn assistant(content: &str) -> (res: Self)
        ensures
            res@ == MessageView::text(MessageRole::Assistant, content@),
    {
        Self::with_role(MessageRole::Assistant, content)
    }

    /// An assistant message that carries tool calls and no text.
    pub fn tool_calls(calls: Vec<ToolCallMessage>) -> (res: Self)
        ensures
            res@ == (MessageView {
                tool_calls: tool_call_views(calls@),
                ..MessageView::text(MessageRole::Assistant, Seq::empty())
            }),
    {
        let res = Message {
            role: Some(MessageRole::Assistant),
            content: String::new(),
            images: Vec::new(),
            tool_calls: calls,
            tool_call_id: None,
        };
        proof {
            assert(res@.images =~= Seq::<Seq<char>>::empty());
        }
        res
    }

    /// A tool message that answers the call `id` with `response`.
    pub fn tool_response(id: String, response: String) -> (res: Self)
        ensures
            res@ == (MessageView {
                tool_call_id: Some(id@),
                ..MessageView::text(MessageRole::Tool, response@)
            }),
    {
        let res = Message {
            role: Some(MessageRole::Tool),
            content: response,
            images: Vec::new(),
            tool_calls: Vec::new(),
            tool_call_id: Some(id),
        };
        proof {
            assert(res@.images =~= Seq::<Seq<char>>::empty());
            assert(res@.tool_calls =~= Seq::<ToolCallMessageView>::empty());
        }
        res
    }
}

/// The message part of a streamed chunk, with the model's thinking trace.
pub struct ResponseMessage {
    /// Thinking trace, when thinking is enabled.
    pub thinking: String,
    pub message: Message,
}

/// One choice of a streamed chat response.
pub struct MessageChunk {
    pub index: i64,
    pub delta: ResponseMessage,
    pub finish_reason: Option<FinishReason>,
}

/// Timing and token counts sent with the last chunk of a reply.
#[derive(Clone, Copy, Debug)]
pub struct ChatMessageFinalResponseData {
    /// Time spent generating the response, in nanoseconds.
    pub total_duration: i64,
    /// Time spent loading the model, in nanoseconds.
    pub load_duration: i64,
    /// Number of input tokens in the prompt.
    pub prompt_eval_count: i64,
    /// Time spent evaluating the prompt, in nanoseconds.
    pub prompt_eval_duration: i64,
    /// Number of output tokens generated.
    pub eval_count: i64,
    /// Time spent generating tokens, in nanoseconds.
    pub eval_duration: i64,
}

/// One chunk of a streamed chat reply.
pub struct ChatResponse {
    pub id: String,
    /// Object type, such as `chat.completion.chunk`.
    pub object: String,
    pub model: String,
    /// Creation time of the response.
    pub created: i64,
    pub choices: Vec<MessageChunk>,
    /// Whether generation has finished.
    pub done: bool,
    pub done_reason: Option<String>,
    pub final_data: Option<ChatMessageFinalResponseData>,
}

impl ChatResponse {
    /// The first choice of the chunk.
    pub open spec fn first(self) -> MessageChunk {
        self.choices@[0]
    }

    /// Why generation stopped: `Stop` once the reply is done, else the
    /// finish reason of the first choice.
    pub open spec fn finish(self) -> Option<FinishReason> {
        if self.done {
            Some(FinishReason::Stop)
        } else {
            self.first().finish_reason
        }
    }

    /// The tool calls of the first choice, `None` where it has none.
    pub open spec fn spec_tool_calls(self) -> Option<Seq<ToolCallMessageView>> {
        if self.choices@.len() == 0 || self.first().delta.message.tool_calls@.len() == 0 {
            None
        } else {
            Some(tool_call_views(self.first().delta.message.tool_calls@))
        }
    }

    pub fn thinking(&self) -> (res: &str)
        requires
            self.choices@.len() > 0,
        ensures
            res@ == self.first().delta.thinking@,
    {
        self.choices[0].delta.thinking.as_str()
    }

    pub fn content(&self) -> (res: &str)
        requires
            self.choices@.len() > 0,
        ensures
            res@ == self.first().delta.message.content@,
    {
        self.choices[0].delta.message.content.as_str()
    }

    pub fn role(&self) -> (res: &Option<MessageRole>)
        requires
            self.choices@.len() > 0,
        ensures
            *res == self.first().delta.message.role,
    {
        &self.choices[0].delta.message.role
    }

    pub fn done(&self) -> (res: Option<FinishReason>)
        requires
            self.done || self.choices@.len() > 0,
        ensures
            res == self.finish(),
    {
        if self.done {
            Some(FinishReason::Stop)
        } else {
            self.choices[0].finish_reason
        }
    }

    /// A copy of the tool calls of the first choice, `None` where it has none.
    pub fn tool_calls(&self) -> (res: Option<Vec<ToolCallMessage>>)
        ensures
            match res {
                Some(v) => self.spec_tool_calls() == Some(tool_call_views(v@)),
                None => self.spec_tool_calls() is None,
            },
    {
        if self.choices.len() == 0 || self.choices[0].delta.message.tool_calls.len() == 0 {
            None
        } else {
            Some(clone_tool_calls(&self.choices[0].delta.message.tool_calls))
        }
    }
}

/// A chat request: the model, the history and the tools it may call.
///
/// The sampling options of the provider, which hold floating-point numbers,
/// are added to the request where it is sent.
pub struct Chat {
    pub model: String,
    pub messages: Vec<Message>,
    /// JSON descriptions of the tools the model may call.
    pub tools: Vec<serde_json::Value>,
    /// Format of the reply: `json` or a JSON schema; empty for free text.
    pub format: String,
    pub stream: bool,
    /// Whether to return the thinking trace apart from the content.
    pub think: Option<bool>,
    /// Keep-alive duration of the model, such as `5m`.
    pub keep_alive: Option<String>,
    pub logprobs: Option<bool>,
    pub top_logprobs: Option<i64>,
}

/// The views of a list of messages.
pub open spec fn message_views(v: Seq<Message>) -> Seq<MessageView> {
    v.map_values(|m: Message| m@)
}

impl Chat {
    /// A builder for a request on `model` with the history `messages`; every
    /// other field starts empty or unset.
    pub fn new(model: &str, messages: Vec<Message>) -> (res: ChatBuilder)
        ensures
            res.chat.model@ == model@,
            message_views(res.chat.messages@) == message_views(messages@),
            res.chat.tools@.len() == 0,
            res.chat.format@.len() == 0,
            !res.chat.stream,
            res.chat.think is None,
            res.chat.keep_alive is None,
            res.chat.logprobs is None,
            res.chat.top_logprobs is None,
    {
        ChatBuilder {
            chat: Chat {
                model: model.to_owned(),
                messages,
                tools: Vec::new(),
                format: String::new(),
                stream: false,
                think: None,
                keep_alive: None,
                logprobs: None,
                top_logprobs: None,
            },
        }
    }
}

/// Builds a [`Chat`] field by field.
pub struct ChatBuilder {
    pub chat: Chat,
}

impl ChatBuilder {
    pub fn with_tools(self, tools: Vec<serde_json::Value>) -> (res: Self)
        ensures
            res.chat == (Chat { tools, ..self.chat }),
    {
        let mut b = self;
        b.chat.tools = tools;
        b
    }

    pub fn with_format(self, format: &str) -> (res: Self)
        ensures
            res.chat.format@ == format@,
            res.chat.model == self.chat.model,
            res.chat.messages == self.chat.messages,
            res.chat.tools == self.chat.tools,
            res.chat.stream == self.chat.stream,
            res.chat.think == self.chat.think,
            res.chat.keep_alive == self.chat.keep_alive,
            res.chat.logprobs == self.chat.logprobs,
            res.chat.top_logprobs == self.chat.top_logprobs,
    {
        let mut b = self;
        b.chat.format = format.to_owned();
        b
    }

    pub fn with_stream(self, stream: bool) -> (res: Self)
        ensures
            res.chat == (Chat { stream, ..self.chat }),
    {
        let mut b = self;
        b.chat.stream = stream;
        b
    }

    pub fn with_think(self, think: bool) -> (res: Self)
        ensures
            res.chat == (Chat { think: Some(think), ..self.chat }),
    {
        let mut b = self;
        b.chat.think = Some(think);
        b
    }

    pub fn with_keep_alive(self, keep_alive: &str) -> (res: Self)
        ensures
            res.chat.keep_alive.deep_view() == Some(keep_alive@),
            res.chat.model == self.chat.model,
            res.chat.messages == self.chat.messages,
            res.chat.tools == self.chat.tools,
            res.chat.format == self.chat.format,
            res.chat.stream == self.chat.stream,
            res.chat.think == self.chat.think,
            res.chat.logprobs == self.chat.logprobs,
            res.chat.top_logprobs == self.chat.top_logprobs,
    {
        let mut b = self;
        b.chat.keep_alive = Some(keep_alive.to_owned());
        b
    }

    pub fn with_logprobs(self, logprobs: bool) -> (res: Self)
        ensures
            res.chat == (Chat { logprobs: Some(logprobs), ..self.chat }),
    {
        let mut b = self;
        b.chat.logprobs = Some(logprobs);
        b
    }

    pub fn with_top_logprobs(self, top_logprobs: i64) -> (res: Self)
        ensures
            res.chat == (Chat { top_logprobs: Some(top_logprobs), ..self.chat }),
    {
        let mut b = self;
        b.chat.top_logprobs = Some(top_logprobs);
        b
    }

    /// The request built so far.
    pub fn build(self) -> (res: Chat)
        ensures
            res == self.chat,
    {
        self.chat
    }
}

} // verus!
