//! What a transition hands back to the host: the sub-calls it dispatches and
//! the attributes it emits.

use crate::msg::CalleeExecuteMsg;
use vstd::prelude::*;
use vstd::string::*;

verus! {

/// A key and a value that a transition emits for whoever observes it.
#[derive(Clone, Debug, PartialEq, Eq)]
pub struct Attribute {
    pub key: String,
    pub value: String,
}

pub struct AttributeView {
    pub key: Seq<char>,
    pub value: Seq<char>,
}

impl View for Attribute {
    type V = AttributeView;

    open spec fn view(&self) -> AttributeView {
        AttributeView { key: self.key@, value: self.value@ }
    }
}

/// After which ends of a sub-call the host is to run the reply entry.
#[derive(Clone, Copy, Debug, PartialEq, Eq, Structural)]
pub enum ReplyOn {
    /// After success and after failure alike.
    Always,
    /// After failure only.
    Error,
    /// After success only.
    Success,
    /// Never.
    Never,
}

/// A request to run the callee's dispatch entry as a transition of its own.
/// The host answers it with a reply that carries the same `id`.
#[derive(Clone, Debug, PartialEq, Eq)]
pub struct SubMsg {
    /// The tag that correlates the reply with this request.
    pub id: u64,
    /// The address of the component that is to run the message.
    pub contract_addr: String,
    pub msg: CalleeExecuteMsg,
    /// When the reply is to run.
    pub reply_on: ReplyOn,
}

pub struct SubMsgView {
    pub id: u64,
    pub contract_addr: Seq<char>,
    pub msg: CalleeExecuteMsg,
    pub reply_on: ReplyOn,
}

impl View for SubMsg {
    type V = SubMsgView;

    open spec fn view(&self) -> SubMsgView {
        SubMsgView {
            id: self.id,
            contract_addr: self.contract_addr@,
            msg: self.msg,
            reply_on: self.reply_on,
        }
    }
}

/// How a dispatched sub-call ended.
#[derive(Clone, Copy, Debug, PartialEq, Eq, Structural)]
pub enum SubMsgResult {
    /// The callee's transition completed and its effects are applied.
    Success,
    /// The callee's transition failed and left no effect.
    Failure,
}

/// What the host hands to the reply entry once a dispatched sub-call has
/// ended.
#[derive(Clone, Copy, Debug, PartialEq, Eq, Structural)]
pub struct Reply {
    /// The tag of the request that this reply answers.
    pub id: u64,
    pub result: SubMsgResult,
}

/// The result of a transition that succeeded.
#[derive(Clone, Debug, PartialEq, Eq)]
pub struct Response {
    /// The sub-calls to dispatch, in order.
    pub messages: Vec<SubMsg>,
    /// The attributes emitted, in order.
    pub attributes: Vec<Attribute>,
}

pub struct ResponseView {
    pub messages: Seq<SubMsgView>,
    pub attributes: Seq<AttributeView>,
}

impl ResponseView {
    /// The response that dispatches nothing and emits nothing.
    pub open spec fn empty() -> ResponseView {
        ResponseView { messages: Seq::empty(), attributes: Seq::empty() }
    }
}

impl View for Response {
    type V = ResponseView;

    open spec fn view(&self) -> ResponseView {
        ResponseView {
            messages: Seq::new(self.messages@.len(), |i: int| self.messages@[i]@),
            attributes: Seq::new(self.attributes@.len(), |i: int| self.attributes@[i]@),
        }
    }
}

impl Default for Response {
    fn default() -> (response: Response)
        ensures
            response@ == ResponseView::empty(),
    {
        let response = Response { messages: Vec::new(), attributes: Vec::new() };
        assert(response@.messages =~= Seq::empty());
        assert(response@.attributes =~= Seq::empty());
        response
    }
}

impl Response {
    /// Adds a sub-call behind those already there.
    pub fn add_submessage(self, msg: SubMsg) -> (response: Response)
        ensures
            response@.messages == self@.messages.push(msg@),
            response@.attributes == self@.attributes,
    {
        let mut response = self;
        response.messages.push(msg);
        assert(response@.messages =~= self@.messages.push(msg@));
        assert(response@.attributes =~= self@.attributes);
        response
    }

    /// Adds an attribute behind those already there.
    pub fn add_attribute(self, key: &str, value: String) -> (response: Response)
        ensures
            response@.messages == self@.messages,
            response@.attributes == self@.attributes.push(
                AttributeView { key: key@, value: value@ },
            ),
    {
        let mut response = self;
        let attribute = Attribute { key: key.to_owned(), value };
        response.attributes.push(attribute);
        assert(response@.messages =~= self@.messages);
        assert(response@.attributes =~= self@.attributes.push(attribute@));
        response
    }
}

} // verus!
