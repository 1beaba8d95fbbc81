//! The chat history as the user sees it, built from the streamed replies of
//! the model, and the history sent back to the model with each request.
use vstd::prelude::*;
use vstd::string::*;

use std::collections::HashMap;

use crate::api::chat::{
    tool_call_views, Chat, ChatResponse, FinishReason, Message, MessageRole, MessageView,
    ToolCallMessage, ToolCallMessageView, message_views,
};
use crate::api::json::{json_text, parse_json, parsed_json, parses_as_json};
use crate::chat::tool_registry::{call_views, ToolCall, ToolCallView};
use crate::error::AppError;
use crate::text::{signed_decimal, signed_decimal_string};
use crate::ui::message_area::concat_pieces;

verus! {

broadcast use vstd::std_specs::hash::group_hash_axioms;

/// What the model is doing with the current request.
#[derive(Clone, Copy, Debug, PartialEq, Eq, Structural)]
pub enum ResponseStatus {
    Waiting,
    Thinking,
    ReceiveResponse,
}

impl Default for ResponseStatus {
    fn default() -> (res: Self)
        ensures
            res == ResponseStatus::Waiting,
    {
        ResponseStatus::Waiting
    }
}

/// The model used in a conversation.
pub struct ModelInfo {
    pub model_name: String,
    pub max_tokens: Option<usize>,
}

impl ModelInfo {
    pub fn new(model_name: &str, max_tokens: Option<usize>) -> (res: Self)
        ensures
            res.model_name@ == model_name@,
            res.max_tokens == max_tokens,
    {
        ModelInfo { model_name: model_name.to_owned(), max_tokens }
    }
}

pub struct ModelInfoView {
    pub model_name: Seq<char>,
    pub max_tokens: Option<usize>,
}

impl View for ModelInfo {
    type V = ModelInfoView;

    open spec fn view(&self) -> ModelInfoView {
        ModelInfoView { model_name: self.model_name@, max_tokens: self.max_tokens }
    }
}

impl Clone for ModelInfo {
    fn clone(&self) -> (res: Self)
        ensures
            res.model_name@ == self.model_name@,
            res.max_tokens == self.max_tokens,
    {
        ModelInfo { model_name: self.model_name.clone(), max_tokens: self.max_tokens }
    }
}

impl Default for ModelInfo {
    fn default() -> (res: Self)
        ensures
            res.model_name@ == Seq::<char>::empty(),
            res.max_tokens is None,
    {
        ModelInfo { model_name: String::new(), max_tokens: None }
    }
}

/// One entry of the history shown to the user.
pub enum LocalMessage {
    User(String),
    Assistant(String),
    ToolCall(ToolCall),
    ToolResponse { id: String, response: String },
    Thinking(String),
    Info(String),
}

pub enum LocalMessageView {
    User(Seq<char>),
    Assistant(Seq<char>),
    ToolCall(ToolCallView),
    ToolResponse { id: Seq<char>, response: Seq<char> },
    Thinking(Seq<char>),
    Info(Seq<char>),
}

impl View for LocalMessage {
    type V = LocalMessageView;

    open spec fn view(&self) -> LocalMessageView {
        match self {
            LocalMessage::User(s) => LocalMessageView::User(s@),
            LocalMessage::Assistant(s) => LocalMessageView::Assistant(s@),
            LocalMessage::ToolCall(c) => LocalMessageView::ToolCall(c@),
            LocalMessage::ToolResponse { id, response } => LocalMessageView::ToolResponse {
                id: id@,
                response: response@,
            },
            LocalMessage::Thinking(s) => LocalMessageView::Thinking(s@),
            LocalMessage::Info(s) => LocalMessageView::Info(s@),
        }
    }
}

/// The views of a list of history entries.
pub open spec fn local_views(v: Seq<LocalMessage>) -> Seq<LocalMessageView> {
    v.map_values(|m: LocalMessage| m@)
}

/// What the application must do after a streamed chunk.
pub enum ResponseAction {
    /// Nothing to do but wait for the next chunk.
    Continue,
    /// The model asked for these tool calls.
    ToolCalls(Vec<ToolCall>),
}

/// A tool call being assembled from streamed fragments.
pub struct ToolCallData {
    pub id: String,
    pub name: String,
    pub arguments: String,
}

pub struct ToolCallDataView {
    pub id: Seq<char>,
    pub name: Seq<char>,
    pub arguments: Seq<char>,
}

impl View for ToolCallData {
    type V = ToolCallDataView;

    open spec fn view(&self) -> ToolCallDataView {
        ToolCallDataView { id: self.id@, name: self.name@, arguments: self.arguments@ }
    }
}

/// Which call of a reply a fragment belongs to: its index, 0 when absent.
pub open spec fn fragment_key(t: ToolCallMessageView) -> u32 {
    match t.function.index {
        Some(i) => i,
        None => 0,
    }
}

/// The buffer after one fragment: the fragment's id, name and arguments are
/// appended to those already gathered for its call.
pub open spec fn absorb(m: Map<u32, ToolCallDataView>, t: ToolCallMessageView) -> Map<
    u32,
    ToolCallDataView,
> {
    let k = fragment_key(t);
    let prev = if m.contains_key(k) {
        m[k]
    } else {
        ToolCallDataView { id: Seq::empty(), name: Seq::empty(), arguments: Seq::empty() }
    };
    m.insert(
        k,
        ToolCallDataView {
            id: prev.id + t.id,
            name: prev.name + t.function.name,
            arguments: prev.arguments + t.function.arguments,
        },
    )
}

/// The buffer after all `fragments`, in order.
pub open spec fn absorb_all(m: Map<u32, ToolCallDataView>, fragments: Seq<ToolCallMessageView>) -> Map<
    u32,
    ToolCallDataView,
>
    decreases fragments.len(),
{
    if fragments.len() == 0 {
        m
    } else {
        absorb(absorb_all(m, fragments.drop_last()), fragments.last())
    }
}

/// Whether `call` is the complete form of the gathered `data`: its id, its
/// name, and its arguments read as JSON.
pub open spec fn completes(call: ToolCallView, data: ToolCallDataView) -> bool {
    call.id == data.id && call.function == data.name && call.arguments == parsed_json(data.arguments)
}

/// Whether `calls` are the calls gathered in `m` listed in the order of
/// `keys`: the keys of `m`, each once, and the call at each position
/// completes the call gathered under the key at that position.
pub open spec fn lists_calls(calls: Seq<ToolCall>, m: Map<u32, ToolCallDataView>, keys: Seq<u32>) -> bool {
    &&& keys.no_duplicates()
    &&& keys.to_set() == m.dom()
    &&& calls.len() == keys.len()
    &&& forall|i: int| 0 <= i < calls.len() ==> completes(#[trigger] calls[i]@, m[keys[i]])
}

/// Whether `calls` are the gathered calls of `m`, one per gathered call, in
/// some order.
pub open spec fn completes_all(calls: Seq<ToolCall>, m: Map<u32, ToolCallDataView>) -> bool {
    exists|keys: Seq<u32>| #[trigger] lists_calls(calls, m, keys)
}

/// The keys of a map of gathered calls, each once, in the map's order.
fn map_keys(m: &HashMap<u32, ToolCallData>) -> (res: Vec<u32>)
    ensures
        res@.to_set() == m@.dom(),
        res@.no_duplicates(),
{
    let ghost all = vstd::std_specs::iter::IteratorSpec::remaining(&vstd::std_specs::hash::spec_keys_iter(m)).unref();
    let mut res: Vec<u32> = Vec::new();
    for k in it: m.keys()
        invariant
            it.seq().unref() == all,
            res@ == all.take(it.index()),
    {
        proof {
            assert(all.take(it.index() + 1) =~= all.take(it.index()).push(*k));
        }
        res.push(*k);
    }
    proof {
        assert(res@ =~= all);
    }
    res
}

/// Tool calls of a streamed reply, gathered fragment by fragment and keyed by
/// their index.
pub struct ToolCallBuffer {
    tool_calls: HashMap<u32, ToolCallData>,
}

impl View for ToolCallBuffer {
    type V = Map<u32, ToolCallDataView>;

    closed spec fn view(&self) -> Map<u32, ToolCallDataView> {
        self.tool_calls@.map_values(|d: ToolCallData| d@)
    }
}

impl ToolCallBuffer {
    /// Whether the arguments of every gathered call are JSON.
    pub open spec fn arguments_parse(self) -> bool {
        forall|k: u32| self@.contains_key(k) ==> parses_as_json(#[trigger] self@[k].arguments)
    }

    pub fn new() -> (res: Self)
        ensures
            res@ == Map::<u32, ToolCallDataView>::empty(),
    {
        let res = ToolCallBuffer { tool_calls: HashMap::new() };
        proof {
            assert(res@ =~= Map::<u32, ToolCallDataView>::empty());
        }
        res
    }

    /// Adds the fragments of one chunk, in order.
    pub fn push(&mut self, deltas: Option<Vec<ToolCallMessage>>)
        ensures
            final(self)@ == absorb_all(
                old(self)@,
                match deltas {
                    Some(v) => tool_call_views(v@),
                    None => Seq::empty(),
                },
            ),
    {
        match deltas {
            None => {},
            Some(v) => {
                let ghost frags = tool_call_views(v@);
                let mut i: usize = 0;
                proof {
                    assert(frags.take(0) =~= Seq::<ToolCallMessageView>::empty());
                }
                while i < v.len()
                    invariant
                        i <= v@.len(),
                        frags == tool_call_views(v@),
                        self@ == absorb_all(old(self)@, frags.take(i as int)),
                    decreases v@.len() - i,
                {
                    let delta = &v[i];
                    let idx: u32 = match delta.function.index {
                        Some(x) => x,
                        None => 0,
                    };
                    let ghost before = self@;
                    let prev = self.tool_calls.remove(&idx);
                    let data = match prev {
                        Some(d) => {
                            let mut d = d;
                            d.id.append(delta.id.as_str());
                            d.name.append(delta.function.name.as_str());
                            d.arguments.append(delta.function.arguments.as_str());
                            d
                        },
                        None => ToolCallData {
                            id: delta.id.clone(),
                            name: delta.function.name.clone(),
                            arguments: delta.function.arguments.clone(),
                        },
                    };
                    self.tool_calls.insert(idx, data);
                    proof {
                        let t = frags[i as int];
                        assert(t == delta@);
                        assert(fragment_key(t) == idx);
                        assert(frags.take(i + 1).drop_last() =~= frags.take(i as int));
                        assert(frags.take(i + 1).last() == t);
                        let prev_view = if before.contains_key(idx) {
                            before[idx]
                        } else {
                            ToolCallDataView {
                                id: Seq::empty(),
                                name: Seq::empty(),
                                arguments: Seq::empty(),
                            }
                        };
                        assert(data@.id =~= prev_view.id + t.id);
                        assert(data@.name =~= prev_view.name + t.function.name);
                        assert(data@.arguments =~= prev_view.arguments + t.function.arguments);
                        assert(self@ =~= absorb(before, t));
                    }
                    i += 1;
                }
                proof {
                    assert(frags.take(v@.len() as int) =~= frags);
                }
            },
        }
    }

    /// Whether the arguments of every gathered call are JSON.
    pub fn arguments_are_json(&self) -> (res: bool)
        ensures
            res == self.arguments_parse(),
    {
        let keys = map_keys(&self.tool_calls);
        let mut i: usize = 0;
        while i < keys.len()
            invariant
                i <= keys@.len(),
                keys@.to_set() == self.tool_calls@.dom(),
                forall|j: int| 0 <= j < i ==> parses_as_json(#[trigger] self@[keys@[j]].arguments),
            decreases keys@.len() - i,
        {
            let k = keys[i];
            match self.tool_calls.get(&k) {
                Some(d) => {
                    if parse_json(d.arguments.as_str()).is_err() {
                        proof {
                            assert(self.tool_calls@[k] == *d);
                            assert(self@[k] == d@);
                            assert(!parses_as_json(self@[k].arguments));
                        }
                        return false;
                    }
                    proof {
                        assert(self.tool_calls@[k] == *d);
                        assert(self@[k] == d@);
                    }
                },
                None => {
                    proof {
                        assert(keys@.to_set().contains(keys@[i as int]));
                    }
                },
            }
            i += 1;
        }
        proof {
            assert forall|k: u32| self@.contains_key(k) implies parses_as_json(
                #[trigger] self@[k].arguments,
            ) by {
                assert(keys@.to_set().contains(k));
                let j = keys@.index_of(k);
                assert(keys@[j] == k);
            }
        }
        true
    }

    /// Empties the buffer and returns its calls, in the map's order, each with
    /// its arguments parsed as JSON.
    pub fn take(&mut self) -> (res: Vec<ToolCall>)
        requires
            old(self).arguments_parse(),
        ensures
            final(self)@ == Map::<u32, ToolCallDataView>::empty(),
            completes_all(res@, old(self)@),
    {
        let ghost start = self@;
        let keys = map_keys(&self.tool_calls);
        proof {
            keys@.unique_seq_to_set();
            assert(self.tool_calls@.dom() =~= self@.dom());
        }
        let mut res: Vec<ToolCall> = Vec::new();
        let mut i: usize = 0;
        while i < keys.len()
            invariant
                i <= keys@.len(),
                keys@.no_duplicates(),
                keys@.to_set() == start.dom(),
                forall|k: u32| start.contains_key(k) ==> parses_as_json(#[trigger] start[k].arguments),
                res@.len() == i,
                forall|j: int| 0 <= j < i ==> completes(#[trigger] res@[j]@, start[keys@[j]]),
                forall|j: int| i <= j < keys@.len() ==> self@.contains_key(#[trigger] keys@[j]) && self@[keys@[j]] == start[keys@[j]],
                forall|k: u32| #[trigger] self@.contains_key(k) ==> start.contains_key(k) && exists|j: int| i <= j < keys@.len() && keys@[j] == k,
            decreases keys@.len() - i,
        {
            let k = keys[i];
            let ghost before = self@;
            let ghost before_raw = self.tool_calls@;
            let removed = self.tool_calls.remove(&k);
            proof {
                assert(before.contains_key(k));
                assert(self.tool_calls@ == before_raw.remove(k));
                assert(self@ =~= before.remove(k));
            }
            match removed {
                Some(d) => {
                    proof {
                        assert(before_raw[k] == d);
                        assert(before[k] == d@);
                        assert(d@ == start[k]);
                    }
                    match parse_json(d.arguments.as_str()) {
                        Ok(v) => {
                            let ghost old_res = res@;
                            res.push(ToolCall { id: d.id, function: d.name, arguments: v });
                            proof {
                                assert(res@ == old_res.push(res@[i as int]));
                                assert(completes(res@[i as int]@, start[keys@[i as int]]));
                                assert forall|j: int| 0 <= j < i + 1 implies completes(#[trigger] res@[j]@, start[keys@[j]]) by {
                                    if j < i {
                                        assert(res@[j] == old_res[j]);
                                    }
                                }
                            }
                        },
                        Err(_) => {
                            proof {
                                assert(parses_as_json(start[k].arguments));
                                assert(false);
                            }
                        },
                    }
                },
                None => {
                    proof {
                        assert(false);
                    }
                },
            }
            proof {
                assert forall|j: int| i + 1 <= j < keys@.len() implies self@.contains_key(#[trigger] keys@[j]) && self@[keys@[j]] == start[keys@[j]] by {
                    assert(keys@[j] != k);
                }
                assert forall|kk: u32| self@.contains_key(kk) implies start.contains_key(kk) && exists|j: int| i + 1 <= j < keys@.len() && keys@[j] == kk by {
                    assert(before.contains_key(kk));
                    assert(kk != k);
                    assert(exists|j: int| i <= j < keys@.len() && keys@[j] == kk);
                    let j = choose|j: int| i <= j < keys@.len() && keys@[j] == kk;
                    assert(j != i);
                }
            }
            i += 1;
        }
        proof {
            assert forall|kk: u32| !self@.contains_key(kk) by {
                if self@.contains_key(kk) {
                    assert(exists|j: int| keys@.len() <= j < keys@.len() && keys@[j] == kk);
                }
            }
            assert(self@ =~= Map::<u32, ToolCallDataView>::empty());
            assert(start == old(self)@);
            assert(lists_calls(res@, old(self)@, keys@));
        }
        res
    }
}

/// The tool-call fragments of a chunk.
pub open spec fn fragments_of(response: ChatResponse) -> Seq<ToolCallMessageView> {
    match response.spec_tool_calls() {
        Some(v) => v,
        None => Seq::empty(),
    }
}

/// Whether the arguments of every gathered call are JSON.
pub open spec fn all_json(m: Map<u32, ToolCallDataView>) -> bool {
    forall|k: u32| m.contains_key(k) ==> parses_as_json(#[trigger] m[k].arguments)
}

/// Whether some fragment belongs to call `k`.
pub open spec fn has_fragment(fragments: Seq<ToolCallMessageView>, k: u32) -> bool {
    exists|i: int| 0 <= i < fragments.len() && fragment_key(#[trigger] fragments[i]) == k
}

/// The fragments of call `k`, in order.
pub open spec fn fragments_for(fragments: Seq<ToolCallMessageView>, k: u32) -> Seq<
    ToolCallMessageView,
>
    decreases fragments.len(),
{
    if fragments.len() == 0 {
        Seq::empty()
    } else if fragment_key(fragments.last()) == k {
        fragments_for(fragments.drop_last(), k).push(fragments.last())
    } else {
        fragments_for(fragments.drop_last(), k)
    }
}

/// A call's id, name and arguments are the concatenation, in stream order,
/// of the fragments sent for it; a call is gathered exactly when some
/// fragment was sent for it.
pub proof fn lemma_fragments_concatenate(fragments: Seq<ToolCallMessageView>, k: u32)
    ensures
        absorb_all(Map::empty(), fragments).contains_key(k) <==> has_fragment(fragments, k),
        absorb_all(Map::empty(), fragments).contains_key(k) ==> {
            let d = absorb_all(Map::empty(), fragments)[k];
            let fs = fragments_for(fragments, k);
            &&& d.id == concat_pieces(fs.map_values(|f: ToolCallMessageView| f.id))
            &&& d.name == concat_pieces(fs.map_values(|f: ToolCallMessageView| f.function.name))
            &&& d.arguments == concat_pieces(
                fs.map_values(|f: ToolCallMessageView| f.function.arguments),
            )
        },
    decreases fragments.len(),
{
    if fragments.len() > 0 {
        let front = fragments.drop_last();
        let t = fragments.last();
        lemma_fragments_concatenate(front, k);
        let m = absorb_all(Map::empty(), front);
        if has_fragment(front, k) {
            let i = choose|i: int| 0 <= i < front.len() && fragment_key(#[trigger] front[i]) == k;
            assert(fragments[i] == front[i]);
        }
        if has_fragment(fragments, k) && fragment_key(t) != k {
            let i = choose|i: int| 0 <= i < fragments.len() && fragment_key(#[trigger] fragments[i]) == k;
            assert(front[i] == fragments[i]);
        }
        if fragment_key(t) != k {
            assert(fragments_for(fragments, k) == fragments_for(front, k));
            assert(absorb_all(Map::empty(), fragments) == absorb(m, t));
        }
        if fragment_key(t) == k {
            assert(fragment_key(fragments[fragments.len() - 1]) == k);
            let fs = fragments_for(fragments, k);
            let prev = fragments_for(front, k);
            assert(fs == prev.push(t));
            assert(fs.map_values(|f: ToolCallMessageView| f.id) =~= prev.map_values(|f: ToolCallMessageView| f.id).push(t.id));
            assert(fs.map_values(|f: ToolCallMessageView| f.function.name) =~= prev.map_values(|f: ToolCallMessageView| f.function.name).push(t.function.name));
            assert(fs.map_values(|f: ToolCallMessageView| f.function.arguments) =~= prev.map_values(|f: ToolCallMessageView| f.function.arguments).push(t.function.arguments));
            let p1 = prev.map_values(|f: ToolCallMessageView| f.id).push(t.id);
            assert(p1.drop_last() =~= prev.map_values(|f: ToolCallMessageView| f.id));
            let p2 = prev.map_values(|f: ToolCallMessageView| f.function.name).push(t.function.name);
            assert(p2.drop_last() =~= prev.map_values(|f: ToolCallMessageView| f.function.name));
            let p3 = prev.map_values(|f: ToolCallMessageView| f.function.arguments).push(t.function.arguments);
            assert(p3.drop_last() =~= prev.map_values(|f: ToolCallMessageView| f.function.arguments));
            assert(concat_pieces(p1) == concat_pieces(p1.drop_last()) + t.id);
            assert(concat_pieces(p2) == concat_pieces(p2.drop_last()) + t.function.name);
            assert(concat_pieces(p3) == concat_pieces(p3.drop_last()) + t.function.arguments);
            if !m.contains_key(k) {
                lemma_no_fragments_for(front, k);
                assert(concat_pieces(Seq::<Seq<char>>::empty()) =~= Seq::<char>::empty());
                assert(prev.len() == 0);
                assert(prev.map_values(|f: ToolCallMessageView| f.id) =~= Seq::<Seq<char>>::empty());
                assert(prev.map_values(|f: ToolCallMessageView| f.function.name) =~= Seq::<Seq<char>>::empty());
                assert(prev.map_values(|f: ToolCallMessageView| f.function.arguments) =~= Seq::<Seq<char>>::empty());
            }
        }
    }
}

proof fn lemma_no_fragments_for(fragments: Seq<ToolCallMessageView>, k: u32)
    requires
        !has_fragment(fragments, k),
    ensures
        fragments_for(fragments, k).len() == 0,
    decreases fragments.len(),
{
    if fragments.len() > 0 {
        let front = fragments.drop_last();
        if has_fragment(front, k) {
            let i = choose|i: int| 0 <= i < front.len() && fragment_key(#[trigger] front[i]) == k;
            assert(fragments[i] == front[i]);
        }
        assert(fragment_key(fragments[fragments.len() - 1]) != k);
        lemma_no_fragments_for(front, k);
    }
}

/// A reply streamed in pieces gives the same history as the same reply in one
/// piece: two content chunks in a row, or two thinking chunks in a row,
/// leave what one chunk with their concatenated text leaves.
pub proof fn lemma_stream_chunks_concatenate(
    messages: Seq<LocalMessageView>,
    status: ResponseStatus,
    first: Seq<char>,
    second: Seq<char>,
)
    ensures
        ({
            let (m1, s1) = streamed(messages, status, Seq::empty(), first);
            streamed(m1, s1, Seq::empty(), second) == streamed(
                messages,
                status,
                Seq::empty(),
                first + second,
            )
        }),
        first.len() > 0 && second.len() > 0 ==> ({
            let (m1, s1) = streamed(messages, status, first, Seq::empty());
            streamed(m1, s1, second, Seq::empty()) == streamed(
                messages,
                status,
                first + second,
                Seq::empty(),
            )
        }),
{
    let (m1, s1) = streamed(messages, status, Seq::empty(), first);
    assert(m1.len() > 0 && m1.last() is Assistant);
    if messages.len() > 0 && messages.last() is Assistant {
        assert(messages.last()->Assistant_0 + first + second =~= messages.last()->Assistant_0 + (
        first + second));
        assert(m1.update(m1.len() - 1, LocalMessageView::Assistant(m1.last()->Assistant_0 + second))
            =~= messages.update(
            messages.len() - 1,
            LocalMessageView::Assistant(messages.last()->Assistant_0 + (first + second)),
        ));
    } else {
        assert(m1.update(m1.len() - 1, LocalMessageView::Assistant(m1.last()->Assistant_0 + second))
            =~= messages.push(LocalMessageView::Assistant(first + second)));
    }
    if first.len() > 0 && second.len() > 0 {
        let (t1, u1) = streamed(messages, status, first, Seq::empty());
        assert((first + second).len() > 0);
        if messages.len() > 0 && messages.last() is Thinking {
            assert(messages.last()->Thinking_0 + first + second =~= messages.last()->Thinking_0 + (
            first + second));
            assert(t1.update(t1.len() - 1, LocalMessageView::Thinking(t1.last()->Thinking_0 + second))
                =~= messages.update(
                messages.len() - 1,
                LocalMessageView::Thinking(messages.last()->Thinking_0 + (first + second)),
            ));
        } else {
            assert(t1.update(t1.len() - 1, LocalMessageView::Thinking(t1.last()->Thinking_0 + second))
                =~= messages.push(LocalMessageView::Thinking(first + second)));
        }
    }
}

/// Abstract state of a [`Conversation`].
pub struct ConversationView {
    pub messages: Seq<LocalMessageView>,
    pub system_prompt: Option<Seq<char>>,
    pub model_info: ModelInfoView,
    pub status: ResponseStatus,
    /// Tool calls of the current reply, still being assembled.
    pub pending: Map<u32, ToolCallDataView>,
}

/// The history after the text of one streamed chunk: a thinking trace is
/// appended to a thinking entry at the end of the history, or starts one;
/// otherwise the content is appended to an assistant entry at the end, or
/// starts one. Starting an entry sets the status to match it.
pub open spec fn streamed(
    messages: Seq<LocalMessageView>,
    status: ResponseStatus,
    thinking: Seq<char>,
    content: Seq<char>,
) -> (Seq<LocalMessageView>, ResponseStatus) {
    if thinking.len() > 0 {
        if messages.len() > 0 && messages.last() is Thinking {
            (
                messages.update(
                    messages.len() - 1,
                    LocalMessageView::Thinking(messages.last()->Thinking_0 + thinking),
                ),
                status,
            )
        } else {
            (messages.push(LocalMessageView::Thinking(thinking)), ResponseStatus::Thinking)
        }
    } else {
        if messages.len() > 0 && messages.last() is Assistant {
            (
                messages.update(
                    messages.len() - 1,
                    LocalMessageView::Assistant(messages.last()->Assistant_0 + content),
                ),
                status,
            )
        } else {
            (messages.push(LocalMessageView::Assistant(content)), ResponseStatus::ReceiveResponse)
        }
    }
}

/// The line that reports the token counts of a finished reply.
pub open spec fn token_usage_text(prompt_eval_count: int, eval_count: int) -> Seq<char> {
    "Tokens sent: "@ + signed_decimal(prompt_eval_count) + " | received: "@ + signed_decimal(
        eval_count,
    )
}

/// Whether a history entry is sent back to the model: user and assistant
/// text, tool calls and tool responses are; thinking traces and
/// information lines are not.
pub open spec fn is_sent(m: LocalMessageView) -> bool {
    m is User || m is Assistant || m is ToolCall || m is ToolResponse
}

/// The entries of the history that are sent back to the model, in order.
pub open spec fn sent_entries(messages: Seq<LocalMessageView>) -> Seq<LocalMessageView>
    decreases messages.len(),
{
    if messages.len() == 0 {
        Seq::empty()
    } else if is_sent(messages.last()) {
        sent_entries(messages.drop_last()).push(messages.last())
    } else {
        sent_entries(messages.drop_last())
    }
}

/// Whether `m` is the request message for the history entry `entry`; a tool
/// call goes as an assistant message carrying the call, its arguments as
/// JSON text.
pub open spec fn request_message(entry: LocalMessageView, m: MessageView) -> bool {
    match entry {
        LocalMessageView::User(c) => m == MessageView::text(MessageRole::User, c),
        LocalMessageView::Assistant(c) => m == MessageView::text(MessageRole::Assistant, c),
        LocalMessageView::ToolCall(call) => {
            &&& m.role == Some(MessageRole::Assistant)
            &&& m.content.len() == 0
            &&& m.images.len() == 0
            &&& m.tool_call_id is None
            &&& m.tool_calls.len() == 1
            &&& m.tool_calls[0].id == call.id
            &&& m.tool_calls[0].index == 0
            &&& m.tool_calls[0].function.index is None
            &&& m.tool_calls[0].function.name == call.function
            &&& m.tool_calls[0].function.arguments == json_text(call.arguments)
        },
        LocalMessageView::ToolResponse { id, response } => m == (MessageView {
            tool_call_id: Some(id),
            ..MessageView::text(MessageRole::Tool, response)
        }),
        _ => false,
    }
}

/// Whether `request` is the history sent to the model for `c`: the system
/// prompt first where there is one, then one message per sent entry, in
/// order.
pub open spec fn session_history(c: ConversationView, request: Seq<MessageView>) -> bool {
    let offset: int = if c.system_prompt is Some { 1 } else { 0 };
    let sent = sent_entries(c.messages);
    &&& request.len() == offset + sent.len()
    &&& c.system_prompt matches Some(p) ==> request[0] == MessageView::text(MessageRole::System, p)
    &&& forall|i: int| 0 <= i < sent.len() ==> request_message(#[trigger] sent[i], request[offset + i])
}

/// Thinking traces and information lines, such as the token counts, are
/// for the user's eyes only: adding one to the history leaves the request
/// for the model unchanged.
pub proof fn lemma_unsent_entries_leave_request(c: ConversationView, text: Seq<char>, request: Seq<MessageView>)
    ensures
        session_history(
            ConversationView { messages: c.messages.push(LocalMessageView::Info(text)), ..c },
            request,
        ) <==> session_history(c, request),
        session_history(
            ConversationView { messages: c.messages.push(LocalMessageView::Thinking(text)), ..c },
            request,
        ) <==> session_history(c, request),
{
    let mi = c.messages.push(LocalMessageView::Info(text));
    let mt = c.messages.push(LocalMessageView::Thinking(text));
    assert(mi.drop_last() =~= c.messages);
    assert(mt.drop_last() =~= c.messages);
    assert(sent_entries(mi) == sent_entries(c.messages));
    assert(sent_entries(mt) == sent_entries(c.messages));
}

/// Every user and assistant text, tool call and tool answer of the history
/// goes to the model as one more message at the end of the request.
pub proof fn lemma_sent_entries_add_one_message(
    c: ConversationView,
    entry: LocalMessageView,
    request: Seq<MessageView>,
)
    requires
        entry is User || entry is Assistant || entry is ToolCall || entry is ToolResponse,
        session_history(ConversationView { messages: c.messages.push(entry), ..c }, request),
    ensures
        request.len() > 0,
        session_history(c, request.drop_last()),
{
    let ms = c.messages.push(entry);
    assert(ms.drop_last() =~= c.messages);
    let sent = sent_entries(c.messages);
    assert(sent_entries(ms) == sent.push(entry));
    let offset: int = if c.system_prompt is Some { 1 } else { 0 };
    assert forall|i: int| 0 <= i < sent.len() implies request_message(
        #[trigger] sent[i],
        request.drop_last()[offset + i],
    ) by {
        assert(sent_entries(ms)[i] == sent[i]);
        assert(request_message(sent_entries(ms)[i], request[offset + i]));
    }
}

/// What the user submits is what the model receives last: once a user
/// message is added, the history sent with the next request ends with it.
pub proof fn lemma_user_text_is_sent_last(c: ConversationView, text: Seq<char>, request: Seq<MessageView>)
    requires
        session_history(
            ConversationView { messages: c.messages.push(LocalMessageView::User(text)), ..c },
            request,
        ),
    ensures
        request.len() > 0,
        request.last() == MessageView::text(MessageRole::User, text),
{
    let ms = c.messages.push(LocalMessageView::User(text));
    assert(ms.drop_last() =~= c.messages);
    let sent = sent_entries(ms);
    assert(sent == sent_entries(c.messages).push(LocalMessageView::User(text)));
    let i = sent.len() - 1;
    assert(request_message(sent[i], request[request.len() - 1]));
}

/// A confirmed tool call is answered in the next request: once the call and
/// its response are added, the history sent ends with the assistant message
/// carrying the call, then the tool message answering it by the call's id.
pub proof fn lemma_tool_answer_is_sent_last(
    c: ConversationView,
    call: ToolCallView,
    response: Seq<char>,
    request: Seq<MessageView>,
)
    requires
        session_history(
            ConversationView {
                messages: c.messages.push(LocalMessageView::ToolCall(call)).push(
                    LocalMessageView::ToolResponse { id: call.id, response },
                ),
                ..c
            },
            request,
        ),
    ensures
        request.len() >= 2,
        request[request.len() - 2].role == Some(MessageRole::Assistant),
        request[request.len() - 2].tool_calls.len() == 1,
        request[request.len() - 2].tool_calls[0].id == call.id,
        request[request.len() - 2].tool_calls[0].function.name == call.function,
        request[request.len() - 2].tool_calls[0].function.arguments == json_text(call.arguments),
        request.last() == (MessageView {
            tool_call_id: Some(call.id),
            ..MessageView::text(MessageRole::Tool, response)
        }),
{
    let m1 = c.messages.push(LocalMessageView::ToolCall(call));
    let ms = m1.push(LocalMessageView::ToolResponse { id: call.id, response });
    assert(ms.drop_last() =~= m1);
    assert(m1.drop_last() =~= c.messages);
    let sent = sent_entries(ms);
    assert(sent_entries(m1) == sent_entries(c.messages).push(LocalMessageView::ToolCall(call)));
    assert(sent == sent_entries(m1).push(LocalMessageView::ToolResponse { id: call.id, response }));
    let n = sent.len();
    assert(request_message(sent[n - 1], request[request.len() - 1]));
    assert(request_message(sent[n - 2], request[request.len() - 2]));
}

/// The chat history shown to the user, the system prompt sent with every
/// request, the status of the current reply and its tool calls in assembly.
pub struct Conversation {
    messages: Vec<LocalMessage>,
    system_prompt: Option<String>,
    pub model_info: ModelInfo,
    conversation_status: ResponseStatus,
    tool_call_buffer: ToolCallBuffer,
}

impl View for Conversation {
    type V = ConversationView;

    closed spec fn view(&self) -> ConversationView {
        ConversationView {
            messages: local_views(self.messages@),
            system_prompt: self.system_prompt.deep_view(),
            model_info: self.model_info@,
            status: self.conversation_status,
            pending: self.tool_call_buffer@,
        }
    }
}

impl Conversation {
    /// An empty conversation, waiting for the user.
    pub fn new(system_prompt: Option<String>, model_info: ModelInfo) -> (res: Self)
        ensures
            res@.messages == Seq::<LocalMessageView>::empty(),
            res@.system_prompt == system_prompt.deep_view(),
            res@.status == ResponseStatus::Waiting,
            res@.pending == Map::<u32, ToolCallDataView>::empty(),
            res@.model_info == model_info@,
    {
        let res = Conversation {
            messages: Vec::new(),
            system_prompt,
            model_info,
            conversation_status: ResponseStatus::Waiting,
            tool_call_buffer: ToolCallBuffer::new(),
        };
        proof {
            assert(res@.messages =~= Seq::<LocalMessageView>::empty());
        }
        res
    }

    /// The model used in this conversation.
    pub fn model_info(&self) -> (res: &ModelInfo)
        ensures
            res@ == self@.model_info,
    {
        &self.model_info
    }

    fn push_message(&mut self, msg: LocalMessage)
        ensures
            final(self)@ == (ConversationView { messages: old(self)@.messages.push(msg@), ..old(self)@ }),
    {
        self.messages.push(msg);
        proof {
            assert(local_views(self.messages@) =~= old(self)@.messages.push(msg@));
        }
    }

    /// Appends a message of the user.
    pub fn push_user(&mut self, text: String)
        ensures
            final(self)@ == (ConversationView {
                messages: old(self)@.messages.push(LocalMessageView::User(text@)),
                ..old(self)@
            }),
    {
        self.push_message(LocalMessage::User(text));
    }

    /// Appends a tool call about to be made.
    pub fn push_tool_call(&mut self, call: ToolCall)
        ensures
            final(self)@ == (ConversationView {
                messages: old(self)@.messages.push(LocalMessageView::ToolCall(call@)),
                ..old(self)@
            }),
    {
        self.push_message(LocalMessage::ToolCall(call));
    }

    /// Appends the response of the tool call `id`.
    pub fn push_tool_response(&mut self, id: String, response: String)
        ensures
            final(self)@ == (ConversationView {
                messages: old(self)@.messages.push(
                    LocalMessageView::ToolResponse { id: id@, response: response@ },
                ),
                ..old(self)@
            }),
    {
        self.push_message(LocalMessage::ToolResponse { id, response });
    }

    /// Appends the thinking or content text of a chunk to the last entry when
    /// it is of the same kind, or starts a new entry.
    fn append_stream_text(&mut self, response: &ChatResponse)
        requires
            response.choices@.len() > 0,
        ensures
            (final(self)@.messages, final(self)@.status) == streamed(
                old(self)@.messages,
                old(self)@.status,
                response.first().delta.thinking@,
                response.first().delta.message.content@,
            ),
            final(self)@.system_prompt == old(self)@.system_prompt,
            final(self)@.pending == old(self)@.pending,
            final(self)@.model_info == old(self)@.model_info,
    {
        let thinking = response.thinking();
        let content = response.content();
        let ghost msgs = old(self)@.messages;
        let last = self.messages.pop();
        proof {
            if msgs.len() > 0 {
                assert(local_views(self.messages@) =~= msgs.drop_last());
            }
        }
        if thinking.unicode_len() > 0 {
            match last {
                Some(LocalMessage::Thinking(text)) => {
                    let mut text = text;
                    text.append(thinking);
                    self.messages.push(LocalMessage::Thinking(text));
                    proof {
                        assert(local_views(self.messages@) =~= msgs.update(
                            msgs.len() - 1,
                            LocalMessageView::Thinking(msgs.last()->Thinking_0 + thinking@),
                        ));
                    }
                },
                Some(other) => {
                    self.messages.push(other);
                    self.conversation_status = ResponseStatus::Thinking;
                    self.messages.push(LocalMessage::Thinking(thinking.to_owned()));
                    proof {
                        assert(local_views(self.messages@) =~= msgs.push(
                            LocalMessageView::Thinking(thinking@),
                        ));
                    }
                },
                None => {
                    self.conversation_status = ResponseStatus::Thinking;
                    self.messages.push(LocalMessage::Thinking(thinking.to_owned()));
                    proof {
                        assert(local_views(self.messages@) =~= msgs.push(
                            LocalMessageView::Thinking(thinking@),
                        ));
                    }
                },
            }
        } else {
            match last {
                Some(LocalMessage::Assistant(text)) => {
                    let mut text = text;
                    text.append(content);
                    self.messages.push(LocalMessage::Assistant(text));
                    proof {
                        assert(local_views(self.messages@) =~= msgs.update(
                            msgs.len() - 1,
                            LocalMessageView::Assistant(msgs.last()->Assistant_0 + content@),
                        ));
                    }
                },
                Some(other) => {
                    self.messages.push(other);
                    self.conversation_status = ResponseStatus::ReceiveResponse;
                    self.messages.push(LocalMessage::Assistant(content.to_owned()));
                    proof {
                        assert(local_views(self.messages@) =~= msgs.push(
                            LocalMessageView::Assistant(content@),
                        ));
                    }
                },
                None => {
                    self.conversation_status = ResponseStatus::ReceiveResponse;
                    self.messages.push(LocalMessage::Assistant(content.to_owned()));
                    proof {
                        assert(local_views(self.messages@) =~= msgs.push(
                            LocalMessageView::Assistant(content@),
                        ));
                    }
                },
            }
        }
    }

    /// Appends the token counts of a finished reply, when the chunk has them.
    fn append_token_usage(&mut self, response: &ChatResponse)
        ensures
            final(self)@ == (ConversationView {
                messages: match response.final_data {
                    Some(d) => old(self)@.messages.push(
                        LocalMessageView::Info(
                            token_usage_text(d.prompt_eval_count as int, d.eval_count as int),
                        ),
                    ),
                    None => old(self)@.messages,
                },
                ..old(self)@
            }),
    {
        match &response.final_data {
            Some(data) => {
                let mut text = String::new();
                text.append("Tokens sent: ");
                let sent = signed_decimal_string(data.prompt_eval_count);
                text.append(sent.as_str());
                text.append(" | received: ");
                let received = signed_decimal_string(data.eval_count);
                text.append(received.as_str());
                proof {
                    assert(text@ =~= token_usage_text(
                        data.prompt_eval_count as int,
                        data.eval_count as int,
                    ));
                }
                self.push_message(LocalMessage::Info(text));
            },
            None => {},
        }
    }

    /// Takes in one streamed chunk of the model's reply: its tool-call
    /// fragments are gathered, its text is appended to the history, and
    /// - when the chunk ends the reply with tool calls, the gathered calls
    ///   are returned for the application to run and the conversation waits;
    ///   arguments that are not JSON are reported as a tool error instead,
    ///   and the calls stay gathered;
    /// - otherwise the token counts, when the chunk has them, are appended.
    pub fn push_chunk(&mut self, response: ChatResponse) -> (res: Result<ResponseAction, AppError>)
        requires
            response.choices@.len() > 0,
        ensures
            ({
                let pending = absorb_all(old(self)@.pending, fragments_of(response));
                let (messages, status) = streamed(
                    old(self)@.messages,
                    old(self)@.status,
                    response.first().delta.thinking@,
                    response.first().delta.message.content@,
                );
                &&& final(self)@.system_prompt == old(self)@.system_prompt
                &&& final(self)@.model_info == old(self)@.model_info
                &&& if response.finish() == Some(FinishReason::ToolCalls) {
                    &&& final(self)@.messages == messages
                    &&& if all_json(pending) {
                        &&& final(self)@.status == ResponseStatus::Waiting
                        &&& final(self)@.pending == Map::<u32, ToolCallDataView>::empty()
                        &&& res matches Ok(ResponseAction::ToolCalls(calls))
                        &&& completes_all(calls@, pending)
                    } else {
                        &&& final(self)@.status == status
                        &&& final(self)@.pending == pending
                        &&& res matches Err(AppError::ToolError(m))
                        &&& m@ == "Invalid tool call arguments"@
                    }
                } else {
                    &&& final(self)@.pending == pending
                    &&& final(self)@.status == status
                    &&& final(self)@.messages == match response.final_data {
                        Some(d) => messages.push(
                            LocalMessageView::Info(
                                token_usage_text(d.prompt_eval_count as int, d.eval_count as int),
                            ),
                        ),
                        None => messages,
                    }
                    &&& res matches Ok(ResponseAction::Continue)
                }
            }),
    {
        let deltas = response.tool_calls();
        proof {
            if deltas is Some {
                assert(fragments_of(response) == tool_call_views(deltas->0@));
            } else {
                assert(fragments_of(response) == Seq::<ToolCallMessageView>::empty());
            }
        }
        self.tool_call_buffer.push(deltas);
        self.append_stream_text(&response);
        let ghost pending = self@.pending;
        assert(pending == absorb_all(old(self)@.pending, fragments_of(response)));
        match response.done() {
            Some(FinishReason::ToolCalls) => {
                if !self.tool_call_buffer.arguments_are_json() {
                    proof {
                        assert(!all_json(pending));
                    }
                    return Err(AppError::ToolError("Invalid tool call arguments".to_owned()));
                }
                let calls = self.tool_call_buffer.take();
                self.conversation_status = ResponseStatus::Waiting;
                proof {
                    assert(all_json(pending));
                }
                Ok(ResponseAction::ToolCalls(calls))
            },
            _ => {
                self.append_token_usage(&response);
                Ok(ResponseAction::Continue)
            },
        }
    }

    /// The history shown to the user.
    pub fn messages(&self) -> (res: &[LocalMessage])
        ensures
            local_views(res@) == self@.messages,
    {
        self.messages.as_slice()
    }

    pub fn conversation_status(&self) -> (res: ResponseStatus)
        ensures
            res == self@.status,
    {
        self.conversation_status
    }

    /// The history sent to the model: the system prompt where there is one,
    /// then the user and assistant text, tool calls and tool responses.
    fn session_messages(&self) -> (res: Vec<Message>)
        ensures
            session_history(self@, message_views(res@)),
    {
        let mut all: Vec<Message> = Vec::new();
        match &self.system_prompt {
            Some(prompt) => {
                all.push(Message::system(prompt.as_str()));
            },
            None => {},
        }
        let offset: usize = all.len();
        let ghost msgs = self@.messages;
        let mut i: usize = 0;
        proof {
            assert(msgs.take(0) =~= Seq::<LocalMessageView>::empty());
        }
        while i < self.messages.len()
            invariant
                i <= self.messages@.len(),
                msgs == local_views(self.messages@),
                offset == (if self@.system_prompt is Some { 1int } else { 0int }),
                all@.len() == offset + sent_entries(msgs.take(i as int)).len(),
                self@.system_prompt matches Some(p) ==> all@[0]@ == MessageView::text(MessageRole::System, p),
                forall|j: int| 0 <= j < sent_entries(msgs.take(i as int)).len() ==> request_message(
                    #[trigger] sent_entries(msgs.take(i as int))[j],
                    all@[offset + j]@,
                ),
            decreases self.messages@.len() - i,
        {
            let ghost before = all@;
            let ghost prev = msgs.take(i as int);
            let ghost next = msgs.take(i + 1);
            proof {
                assert(next.drop_last() =~= prev);
                assert(next.last() == self.messages@[i as int]@);
            }
            let m = match &self.messages[i] {
                LocalMessage::User(content) => Some(Message::user(content.as_str())),
                LocalMessage::Assistant(content) => Some(Message::assistant(content.as_str())),
                LocalMessage::ToolCall(call) => {
                    let mut calls: Vec<ToolCallMessage> = Vec::new();
                    calls.push(call.to_tool_call_message());
                    Some(Message::tool_calls(calls))
                },
                LocalMessage::ToolResponse { id, response } => Some(
                    Message::tool_response(id.clone(), response.clone()),
                ),
                _ => None,
            };
            match m {
                Some(m) => {
                    all.push(m);
                    proof {
                        assert(is_sent(next.last()));
                        assert(sent_entries(next) == sent_entries(prev).push(next.last()));
                        assert(request_message(next.last(), all@[all@.len() - 1]@));
                        assert forall|j: int| 0 <= j < sent_entries(next).len() implies request_message(
                            #[trigger] sent_entries(next)[j],
                            all@[offset + j]@,
                        ) by {
                            if j < sent_entries(prev).len() {
                                assert(sent_entries(next)[j] == sent_entries(prev)[j]);
                                assert(all@[offset + j] == before[offset + j]);
                            }
                        }
                        if self@.system_prompt is Some {
                            assert(all@[0] == before[0]);
                        }
                    }
                },
                None => {
                    proof {
                        assert(!is_sent(next.last()));
                        assert(sent_entries(next) == sent_entries(prev));
                    }
                },
            }
            i += 1;
        }
        proof {
            assert(msgs.take(self.messages@.len() as int) =~= msgs);
        }
        all
    }

    /// The request for the next reply: the model, the history sent to it,
    /// and the tools it may call.
    pub fn session_chat(&self, tools: Vec<serde_json::Value>) -> (res: Chat)
        ensures
            res.model@ == self@.model_info.model_name,
            session_history(self@, message_views(res.messages@)),
            res.tools == tools,
            res.format@.len() == 0,
            !res.stream,
            res.think is None,
            res.keep_alive is None,
            res.logprobs is None,
            res.top_logprobs is None,
    {
        let messages = self.session_messages();
        let model = self.model_info.model_name.clone();
        Chat {
            model,
            messages,
            tools,
            format: String::new(),
            stream: false,
            think: None,
            keep_alive: None,
            logprobs: None,
            top_logprobs: None,
        }
    }
}

} // verus!
