//! Messages of the request/response protocol spoken with out-of-process plugins.
use vstd::prelude::*;
use crate::item::{Action, Input, ListItem};

verus! {

/// A command with its arguments, as carried on the wire.
#[derive(Debug, Clone)]
pub struct Command {
    pub cmd: String,
    pub args: Vec<String>,
}

/// The variants of an action message.
#[derive(Debug, Clone)]
pub enum ActionKind {
    Close,
    RunCommand(Command),
    RunShell(String),
    Copy(String),
    SetInput(Input),
}

/// An action message; the variant is optional on the wire, and a message
/// without one carries no action.
#[derive(Debug, Clone)]
pub struct ActionMessage {
    pub action: Option<ActionKind>,
}

pub struct QueryRequest {
    pub query: String,
}

pub struct QueryResponse {
    pub items: Vec<ListItem>,
}

pub struct ActivationResponse {
    pub actions: Vec<ActionMessage>,
}

/// A completion request; a well-formed one always carries the selected item.
pub struct CompletionRequest {
    pub query: String,
    pub selected: Option<ListItem>,
}

pub struct CompletionResponse {
    pub input: Option<Input>,
}

/// The message that encodes `a`.
pub open spec fn message_of(a: Action) -> ActionMessage {
    ActionMessage {
        action: Some(
            match a {
                Action::Close => ActionKind::Close,
                Action::RunCommand(cmd, args) => ActionKind::RunCommand(Command { cmd, args }),
                Action::RunShell(s) => ActionKind::RunShell(s),
                Action::Copy(s) => ActionKind::Copy(s),
                Action::SetInput(i) => ActionKind::SetInput(i),
            },
        ),
    }
}

/// The action a message decodes to, if it carries one.
pub open spec fn action_of(m: ActionMessage) -> Option<Action> {
    match m.action {
        None => None,
        Some(ActionKind::Close) => Some(Action::Close),
        Some(ActionKind::RunCommand(c)) => Some(Action::RunCommand(c.cmd, c.args)),
        Some(ActionKind::RunShell(s)) => Some(Action::RunShell(s)),
        Some(ActionKind::Copy(s)) => Some(Action::Copy(s)),
        Some(ActionKind::SetInput(i)) => Some(Action::SetInput(i)),
    }
}

impl Action {
    /// Encodes this action as a wire message.
    pub fn map_to_proto(self) -> (r: ActionMessage)
        ensures
            r == message_of(self),
    {
        let inner = match self {
            Action::Close => ActionKind::Close,
            Action::RunCommand(cmd, args) => ActionKind::RunCommand(Command { cmd, args }),
            Action::RunShell(s) => ActionKind::RunShell(s),
            Action::Copy(s) => ActionKind::Copy(s),
            Action::SetInput(input) => ActionKind::SetInput(input),
        };
        ActionMessage { action: Some(inner) }
    }
}

impl ActionMessage {
    /// Decodes a wire message; `None` when the message names no action.
    pub fn into_action(self) -> (r: Option<Action>)
        ensures
            r == action_of(self),
    {
        match self.action {
            None => None,
            Some(ActionKind::Close) => Some(Action::Close),
            Some(ActionKind::RunCommand(c)) => Some(Action::RunCommand(c.cmd, c.args)),
            Some(ActionKind::RunShell(s)) => Some(Action::RunShell(s)),
            Some(ActionKind::Copy(s)) => Some(Action::Copy(s)),
            Some(ActionKind::SetInput(i)) => Some(Action::SetInput(i)),
        }
    }
}

/// Decoding an encoded action gives the action back.
pub proof fn lemma_action_round_trip(a: Action)
    ensures
        action_of(message_of(a)) == Some(a),
{
}

/// Encodes the actions a plugin produced, in order, as an activation response.
pub fn activation_response(actions: Vec<Action>) -> (r: ActivationResponse)
    ensures
        r.actions@.len() == actions@.len(),
        forall|i: int| 0 <= i < actions@.len() ==> r.actions@[i] == message_of(#[trigger] actions@[i]),
{
    let mut out: Vec<ActionMessage> = Vec::new();
    let mut rest = actions;
    let ghost all = rest@;
    // consume from the back, then restore the order
    let mut rev: Vec<Action> = Vec::new();
    while rest.len() > 0
        invariant
            rest@.len() + rev@.len() == all.len(),
            rest@ == all.subrange(0, rest@.len() as int),
            forall|i: int| 0 <= i < rev@.len() ==> rev@[i] == all[all.len() - 1 - i],
        decreases rest@.len(),
    {
        let a = rest.pop().unwrap();
        rev.push(a);
    }
    while rev.len() > 0
        invariant
            out@.len() + rev@.len() == all.len(),
            forall|i: int| 0 <= i < rev@.len() ==> rev@[i] == all[all.len() - 1 - i],
            forall|i: int| 0 <= i < out@.len() ==> out@[i] == message_of(#[trigger] all[i]),
        decreases rev@.len(),
    {
        let a = rev.pop().unwrap();
        out.push(a.map_to_proto());
    }
    ActivationResponse { actions: out }
}

/// Decodes an activation response; `None` when some message names no action.
pub fn response_actions(resp: ActivationResponse) -> (r: Option<Vec<Action>>)
    ensures
        match r {
            Some(v) => v@.len() == resp.actions@.len() && forall|i: int|
                0 <= i < v@.len() ==> action_of(resp.actions@[i]) == Some(#[trigger] v@[i]),
            None => exists|i: int|
                0 <= i < resp.actions@.len() && action_of(#[trigger] resp.actions@[i]).is_none(),
        },
{
    let mut msgs = resp.actions;
    let ghost all = msgs@;
    let mut rev: Vec<ActionMessage> = Vec::new();
    while msgs.len() > 0
        invariant
            msgs@.len() + rev@.len() == all.len(),
            msgs@ == all.subrange(0, msgs@.len() as int),
            all == resp.actions@,
            forall|i: int| 0 <= i < rev@.len() ==> rev@[i] == all[all.len() - 1 - i],
        decreases msgs@.len(),
    {
        let m = msgs.pop().unwrap();
        rev.push(m);
    }
    let mut out: Vec<Action> = Vec::new();
    while rev.len() > 0
        invariant
            out@.len() + rev@.len() == all.len(),
            forall|i: int| 0 <= i < rev@.len() ==> rev@[i] == all[all.len() - 1 - i],
            forall|i: int| 0 <= i < out@.len() ==> action_of(all[i]) == Some(#[trigger] out@[i]),
            all == resp.actions@,
        decreases rev@.len(),
    {
        let m = rev.pop().unwrap();
        let ghost k = out@.len() as int;
        assert(m == all[k]);
        match m.into_action() {
            Some(a) => out.push(a),
            None => {
                assert(action_of(all[k]).is_none());
                assert(action_of(resp.actions@[k]).is_none());
                return None;
            },
        }
    }
    Some(out)
}

impl CompletionRequest {
    /// The query and the selected item of a well-formed request.
    pub fn into_parts(self) -> (r: (String, ListItem))
        requires
            self.selected.is_some(),
        ensures
            r.0 == self.query,
            r.1 == self.selected.unwrap(),
    {
        match self.selected {
            Some(item) => (self.query, item),
            None => (self.query, ListItem::new(String::new())),
        }
    }
}

} // verus!
