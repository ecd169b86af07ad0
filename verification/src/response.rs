use vstd::prelude::*;

use crate::msg::{Coin, ExecuteMsg};

verus! {

/// One informational event entry of a response. Downstream indexers
/// route on the `method` key.
#[derive(Debug, Clone, PartialEq, Eq)]
pub struct Attribute {
    pub key: String,
    pub value: String,
}

/// A command scheduled by a handler for the host to execute after the
/// current transaction commits.
#[derive(Debug, Clone, PartialEq, Eq)]
pub struct OutgoingMsg {
    pub contract_addr: String,
    pub msg: ExecuteMsg,
    pub funds: Vec<Coin>,
}

/// What a successful command hands back to the host: outgoing messages
/// to schedule, event attributes, and optional opaque payload bytes.
#[derive(Debug, Clone, PartialEq, Eq)]
pub struct Response {
    pub messages: Vec<OutgoingMsg>,
    pub attributes: Vec<Attribute>,
    pub data: Option<Vec<u8>>,
}

/// Does this attribute carry exactly the given key and value?
pub open spec fn attr_is(a: Attribute, key: Seq<char>, value: Seq<char>) -> bool {
    a.key@ == key && a.value@ == value
}

impl Response {
    /// A response with no messages, no attributes and no data.
    pub fn new() -> (r: Response)
        ensures
            r.messages@.len() == 0,
            r.attributes@.len() == 0,
            r.data is None,
    {
        Response { messages: Vec::new(), attributes: Vec::new(), data: None }
    }

    /// Appends one `(key, value)` event attribute.
    pub fn add_attribute(&mut self, key: &str, value: String)
        ensures
            final(self).messages@ == old(self).messages@,
            final(self).data == old(self).data,
            final(self).attributes@.len() == old(self).attributes@.len() + 1,
            forall|i: int|
                0 <= i < old(self).attributes@.len() ==> final(self).attributes@[i] == old(
                    self,
                ).attributes@[i],
            attr_is(final(self).attributes@.last(), key@, value@),
    {
        let a = Attribute { key: key.to_owned(), value };
        self.attributes.push(a);
    }

    /// Appends one outgoing message.
    pub fn add_message(&mut self, m: OutgoingMsg)
        ensures
            final(self).attributes@ == old(self).attributes@,
            final(self).data == old(self).data,
            final(self).messages@ == old(self).messages@.push(m),
    {
        self.messages.push(m);
    }
}

} // verus!
