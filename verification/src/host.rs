//! What the host hands to a handler with each call, and what it takes back.

use vstd::prelude::*;
use crate::addr::Addr;

verus! {

/// What the host says of the call at hand.
#[derive(Debug, Clone)]
pub struct MessageInfo {
    /// The authenticated identity of the caller.
    pub sender: Addr,
}

/// A key and a value that a handler attaches to its response.
#[derive(Debug, Clone, PartialEq, Eq)]
pub struct Attribute {
    pub key: String,
    pub value: String,
}

impl View for Attribute {
    type V = (Seq<char>, Seq<char>);

    open spec fn view(&self) -> (Seq<char>, Seq<char>) {
        (self.key@, self.value@)
    }
}

/// What a response holds, as mathematics.
pub struct ResponseView {
    /// The messages for the host to dispatch, in order.
    pub messages: Seq<Seq<u8>>,
    /// The attributes, as pairs of key and value, in order.
    pub attributes: Seq<(Seq<char>, Seq<char>)>,
}

impl ResponseView {
    /// The response that carries nothing.
    pub open spec fn empty() -> ResponseView {
        ResponseView { messages: Seq::empty(), attributes: Seq::empty() }
    }

    /// This response with one more attribute at the end.
    pub open spec fn with_attribute(self, key: Seq<char>, value: Seq<char>) -> ResponseView {
        ResponseView { messages: self.messages, attributes: self.attributes.push((key, value)) }
    }
}

/// The acknowledgment of a call that succeeded.
#[derive(Debug, Clone, PartialEq, Eq)]
pub struct Response {
    /// Messages for the host to dispatch. The handlers of this crate send none.
    pub messages: Vec<Vec<u8>>,
    /// Attributes that describe what was done.
    pub attributes: Vec<Attribute>,
}

impl View for Response {
    type V = ResponseView;

    open spec fn view(&self) -> ResponseView {
        ResponseView {
            messages: self.messages@.map_values(|m: Vec<u8>| m@),
            attributes: self.attributes@.map_values(|a: Attribute| a@),
        }
    }
}

impl Response {
    /// The response that carries nothing.
    pub fn new() -> (response: Response)
        ensures
            response@ == ResponseView::empty(),
    {
        let response = Response { messages: Vec::new(), attributes: Vec::new() };
        assert(response@.messages =~= Seq::empty());
        assert(response@.attributes =~= Seq::empty());
        response
    }

    /// Appends the attribute `key` = `value`.
    pub fn add_attribute(self, key: &str, value: &str) -> (response: Response)
        ensures
            response@ == self@.with_attribute(key@, value@),
    {
        let mut response = self;
        response.attributes.push(Attribute { key: key.to_owned(), value: value.to_owned() });
        assert(response@.attributes =~= self@.attributes.push((key@, value@)));
        response
    }
}

impl Default for Response {
    fn default() -> (response: Response)
        ensures
            response@ == ResponseView::empty(),
    {
        Response::new()
    }
}

} // verus!
