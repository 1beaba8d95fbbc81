//! Tool calls requested by the model, and the queue of calls waiting for the
//! user's confirmation.
use vstd::prelude::*;
use vstd::string::*;

use crate::api::chat::{ToolCallFunction, ToolCallMessage, ToolCallMessageView};
use crate::error::AppError;
use crate::text::{concat, str_eq};
use crate::api::json::{
    debug_quote, debug_quoted, json_entries, json_object_entries, json_str, json_string_content,
    json_text, json_to_text,
};

verus! {

/// A complete tool call: the call's id, the tool's name and its arguments.
pub struct ToolCall {
    pub id: String,
    pub function: String,
    pub arguments: serde_json::Value,
}

pub struct ToolCallView {
    pub id: Seq<char>,
    pub function: Seq<char>,
    pub arguments: serde_json::Value,
}

impl View for ToolCall {
    type V = ToolCallView;

    open spec fn view(&self) -> ToolCallView {
        ToolCallView { id: self.id@, function: self.function@, arguments: self.arguments }
    }
}

/// A copy of a JSON value.
///
/// Trusted: `Value`'s derived `Clone` copies the whole value, so the copy is
/// the same value.
#[verifier::external_body]
pub(crate) fn clone_json(value: &serde_json::Value) -> (res: serde_json::Value)
    ensures
        res == *value,
{
    value.clone()
}

impl Clone for ToolCall {
    fn clone(&self) -> (res: Self)
        ensures
            res@ == self@,
    {
        ToolCall {
            id: self.id.clone(),
            function: self.function.clone(),
            arguments: clone_json(&self.arguments),
        }
    }
}

/// A JSON value as a tool call shows it: a string in debug notation, any
/// other value as JSON text.
pub open spec fn json_shown(value: serde_json::Value) -> Seq<char> {
    match json_str(value) {
        Some(s) => debug_quoted(s),
        None => json_text(value),
    }
}

/// One argument as a tool call shows it: `key=value`.
pub open spec fn entry_shown(entry: (Seq<char>, serde_json::Value)) -> Seq<char> {
    entry.0 + "="@ + json_shown(entry.1)
}

/// The arguments of a tool call as it shows them, separated by `", "`.
pub open spec fn entries_shown(entries: Seq<(Seq<char>, serde_json::Value)>) -> Seq<char>
    decreases entries.len(),
{
    if entries.len() == 0 {
        Seq::empty()
    } else if entries.len() == 1 {
        entry_shown(entries[0])
    } else {
        entries_shown(entries.drop_last()) + ", "@ + entry_shown(entries.last())
    }
}

/// A tool call as shown to the user: `name(key=value, ...)` over the
/// entries of an object argument, `name()` for any other argument.
pub open spec fn call_text(call: ToolCallView) -> Seq<char> {
    let args = match json_entries(call.arguments) {
        Some(entries) => entries_shown(entries),
        None => Seq::empty(),
    };
    call.function + seq!['('] + args + seq![')']
}

impl ToolCall {
    /// The call as the provider expects it in the history: the first call of
    /// an assistant message, its arguments as JSON text.
    pub fn to_tool_call_message(&self) -> (res: ToolCallMessage)
        ensures
            res@.id == self.id@,
            res@.index == 0,
            res@.function.index is None,
            res@.function.name == self.function@,
            res@.function.arguments == json_text(self.arguments),
    {
        let function = ToolCallFunction {
            arguments: json_to_text(&self.arguments),
            index: None,
            name: self.function.clone(),
        };
        ToolCallMessage { function, id: self.id.clone(), index: 0 }
    }

    /// A string argument in debug notation (quoted and escaped), any other
    /// value as JSON text.
    fn format_json_value(value: &serde_json::Value) -> (res: String)
        ensures
            res@ == json_shown(*value),
    {
        match json_string_content(value) {
            Some(s) => debug_quote(s.as_str()),
            None => json_to_text(value),
        }
    }

    /// The call as shown to the user: `name(key=value, ...)` over the entries
    /// of an object argument, `name()` for any other argument.
    pub fn to_display_string(&self) -> (res: String)
        ensures
            res@ == call_text(self@),
    {
        let mut args = String::new();
        match json_object_entries(&self.arguments) {
            Some(entries) => {
                let ghost es = entries@.map_values(|e: (String, serde_json::Value)| (e.0@, e.1));
                let mut i: usize = 0;
                proof {
                    assert(es.take(0) =~= Seq::<(Seq<char>, serde_json::Value)>::empty());
                }
                while i < entries.len()
                    invariant
                        i <= entries@.len(),
                        es == entries@.map_values(|e: (String, serde_json::Value)| (e.0@, e.1)),
                        args@ == entries_shown(es.take(i as int)),
                    decreases entries@.len() - i,
                {
                    let ghost before = args@;
                    if i > 0 {
                        args.append(", ");
                    }
                    args.append(entries[i].0.as_str());
                    args.append("=");
                    let v = Self::format_json_value(&entries[i].1);
                    args.append(v.as_str());
                    proof {
                        let next = es.take(i + 1);
                        assert(next.drop_last() =~= es.take(i as int));
                        assert(next.last() == (entries@[i as int].0@, entries@[i as int].1));
                        if i == 0 {
                            assert(next.len() == 1);
                            assert(args@ =~= entry_shown(next[0]));
                        } else {
                            assert(args@ =~= before + ", "@ + entry_shown(next.last()));
                        }
                    }
                    i += 1;
                }
                proof {
                    assert(es.take(entries@.len() as int) =~= es);
                }
            },
            None => {},
        }
        let mut res = self.function.clone();
        crate::text::push_char(&mut res, '(');
        res.append(args.as_str());
        crate::text::push_char(&mut res, ')');
        proof {
            assert(res@ =~= self.function@ + seq!['('] + args@ + seq![')']);
        }
        res
    }
}

/// The error text for a tool name that no registered tool has.
pub open spec fn invalid_tool_text(name: Seq<char>) -> Seq<char> {
    "Invalid tool: "@ + name
}

/// Finds the tool that a call names among the names of the registered
/// tools: the position of the first tool of that name, or a tool error for
/// a name no tool has.
pub fn find_tool(names: &Vec<String>, name: &str) -> (res: Result<usize, AppError>)
    ensures
        match res {
            Ok(i) => i < names@.len() && names@[i as int]@ == name@ && forall|j: int|
                0 <= j < i ==> names@[j]@ != name@,
            Err(e) => (forall|j: int| 0 <= j < names@.len() ==> names@[j]@ != name@) && (e matches AppError::ToolError(m) && m@ == invalid_tool_text(name@)),
        },
{
    let mut i: usize = 0;
    while i < names.len()
        invariant
            i <= names@.len(),
            forall|j: int| 0 <= j < i ==> names@[j]@ != name@,
        decreases names@.len() - i,
    {
        if str_eq(names[i].as_str(), name) {
            return Ok(i);
        }
        i += 1;
    }
    Err(AppError::ToolError(concat("Invalid tool: ", name)))
}

/// The views of a list of tool calls.
pub open spec fn call_views(v: Seq<ToolCall>) -> Seq<ToolCallView> {
    v.map_values(|c: ToolCall| c@)
}

/// What a line typed by the user means, given the call waiting for
/// confirmation.
pub enum SubmitAction {
    /// The user confirmed the waiting call with `y`: make it.
    RunTool(ToolCall),
    /// The user answered the waiting call with anything else: drop it.
    Declined,
    /// No call was waiting: the line is a message to the model.
    UserMessage(String),
}

/// Tool calls waiting for the user's confirmation, oldest first.
pub struct ToolCallQueue {
    calls: Vec<ToolCall>,
}

impl View for ToolCallQueue {
    type V = Seq<ToolCallView>;

    closed spec fn view(&self) -> Seq<ToolCallView> {
        call_views(self.calls@)
    }
}

impl ToolCallQueue {
    pub fn new() -> (res: Self)
        ensures
            res@ == Seq::<ToolCallView>::empty(),
    {
        let res = ToolCallQueue { calls: Vec::new() };
        proof {
            assert(res@ =~= Seq::<ToolCallView>::empty());
        }
        res
    }

    /// Adds `calls` behind the calls already waiting, in their order.
    pub fn queue_tool_calls(&mut self, calls: Vec<ToolCall>)
        ensures
            final(self)@ == old(self)@ + call_views(calls@),
    {
        let mut calls = calls;
        let ghost added = call_views(calls@);
        self.calls.append(&mut calls);
        proof {
            assert(call_views(self.calls@) =~= old(self)@ + added);
        }
    }

    /// Removes and returns the oldest waiting call.
    pub fn pop_pending_call(&mut self) -> (res: Option<ToolCall>)
        ensures
            old(self)@.len() == 0 ==> res is None && final(self)@ == old(self)@,
            old(self)@.len() > 0 ==> res is Some && res.unwrap()@ == old(self)@[0] && final(self)@
                == old(self)@.drop_first(),
    {
        if self.calls.len() == 0 {
            None
        } else {
            let c = self.calls.remove(0);
            proof {
                assert(call_views(self.calls@) =~= old(self)@.drop_first());
            }
            Some(c)
        }
    }

    /// Takes the user's line: with a call waiting, the oldest call leaves
    /// the queue and is run when the line is exactly `y`, dropped otherwise;
    /// with none, the line is a message for the model.
    pub fn answer_pending(&mut self, text: String) -> (res: SubmitAction)
        ensures
            old(self)@.len() == 0 ==> final(self)@ == old(self)@ && (res matches SubmitAction::UserMessage(t) && t@ == text@),
            old(self)@.len() > 0 ==> final(self)@ == old(self)@.drop_first() && (if text@ == "y"@ {
                (res matches SubmitAction::RunTool(c) && c@ == old(self)@[0])
            } else {
                res is Declined
            }),
    {
        match self.pop_pending_call() {
            Some(call) => {
                if crate::text::str_eq(text.as_str(), "y") {
                    SubmitAction::RunTool(call)
                } else {
                    SubmitAction::Declined
                }
            },
            None => SubmitAction::UserMessage(text),
        }
    }

    /// The oldest waiting call, if any, left in the queue.
    pub fn peek_pending_calls(&self) -> (res: Option<&ToolCall>)
        ensures
            self@.len() == 0 ==> res is None,
            self@.len() > 0 ==> res is Some && res.unwrap()@ == self@[0],
    {
        if self.calls.len() == 0 {
            None
        } else {
            Some(&self.calls[0])
        }
    }
}

} // verus!
