//! What a successful action hands back to the host: messages to send and
//! attributes to log.
use vstd::prelude::*;

verus! {

/// A call of another contract's `execute` entry point with `msg` as its
/// JSON body and no funds attached.
#[derive(Clone, Debug, PartialEq, Eq)]
pub struct ExecuteCall {
    pub contract_addr: String,
    pub msg: Vec<u8>,
}

/// A key-value pair logged with the response.
#[derive(Clone, Debug, PartialEq, Eq)]
pub struct Attribute {
    pub key: String,
    pub value: String,
}

/// The messages and attributes of a successful action, in order.
#[derive(Clone, Debug, PartialEq, Eq)]
pub struct Response {
    pub messages: Vec<ExecuteCall>,
    pub attributes: Vec<Attribute>,
}

/// A call as the target address and the bytes of its body.
pub type CallView = (Seq<char>, Seq<u8>);

/// An attribute as its key and value text.
pub type AttributeView = (Seq<char>, Seq<char>);

impl View for ExecuteCall {
    type V = CallView;

    open spec fn view(&self) -> CallView {
        (self.contract_addr@, self.msg@)
    }
}

impl View for Attribute {
    type V = AttributeView;

    open spec fn view(&self) -> AttributeView {
        (self.key@, self.value@)
    }
}

/// The response as the sequence of its calls and of its attributes.
pub struct ResponseView {
    pub messages: Seq<CallView>,
    pub attributes: Seq<AttributeView>,
}

impl View for Response {
    type V = ResponseView;

    open spec fn view(&self) -> ResponseView {
        ResponseView {
            messages: self.messages@.map_values(|c: ExecuteCall| c@),
            attributes: self.attributes@.map_values(|a: Attribute| a@),
        }
    }
}

/// Builds an attribute from a key and a value.
pub fn attribute(key: &str, value: String) -> (a: Attribute)
    ensures
        a@ == (key@, value@),
{
    Attribute { key: key.to_owned(), value }
}

} // verus!
