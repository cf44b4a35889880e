//! What an operation hands back to the host: attributes for the audit log
//! and instructions to other contracts.

use vstd::prelude::*;
use vstd::string::StringExecFns;

verus! {

/// A key and a value for the audit log.
#[derive(Debug, Clone, PartialEq, Eq)]
pub struct Attribute {
    pub key: String,
    pub value: String,
}

/// What an `Attribute` holds, as plain values.
pub struct AttributeView {
    pub key: Seq<char>,
    pub value: Seq<char>,
}

impl View for Attribute {
    type V = AttributeView;

    open spec fn view(&self) -> AttributeView {
        AttributeView { key: self.key@, value: self.value@ }
    }
}

/// A call of another contract, in the form in which the host carries it out.
/// The call brings no native funds with it.
#[derive(Debug, Clone, PartialEq, Eq)]
pub struct WasmExecute {
    /// The contract that is called.
    pub contract_addr: String,
    /// The message for that contract, in its wire form.
    pub msg: Vec<u8>,
}

/// What a `WasmExecute` holds, as plain values.
pub struct WasmExecuteView {
    pub contract_addr: Seq<char>,
    pub msg: Seq<u8>,
}

impl View for WasmExecute {
    type V = WasmExecuteView;

    open spec fn view(&self) -> WasmExecuteView {
        WasmExecuteView { contract_addr: self.contract_addr@, msg: self.msg@ }
    }
}

/// The result of an operation that went through.
#[derive(Debug, Clone, PartialEq, Eq)]
pub struct Response {
    /// The attributes, in the order in which they were added.
    pub attributes: Vec<Attribute>,
    /// The calls that the host is to carry out, in this order.
    pub messages: Vec<WasmExecute>,
}

/// What a `Response` holds, as plain values.
#[verifier::ext_equal]
pub struct ResponseView {
    pub attributes: Seq<AttributeView>,
    pub messages: Seq<WasmExecuteView>,
}

impl ResponseView {
    /// The response without attributes and messages.
    pub open spec fn empty() -> ResponseView {
        ResponseView { attributes: Seq::empty(), messages: Seq::empty() }
    }

    /// This response with one more attribute at the end.
    pub open spec fn add_attribute(self, key: Seq<char>, value: Seq<char>) -> ResponseView {
        ResponseView {
            attributes: self.attributes.push(AttributeView { key, value }),
            messages: self.messages,
        }
    }

    /// This response with one more message at the end.
    pub open spec fn add_message(self, message: WasmExecuteView) -> ResponseView {
        ResponseView { attributes: self.attributes, messages: self.messages.push(message) }
    }
}

impl View for Response {
    type V = ResponseView;

    open spec fn view(&self) -> ResponseView {
        ResponseView {
            attributes: self.attributes@.map_values(|a: Attribute| a@),
            messages: self.messages@.map_values(|m: WasmExecute| m@),
        }
    }
}

impl Response {
    /// A response without attributes and messages.
    pub fn new() -> (response: Response)
        ensures
            response@ == ResponseView::empty(),
    {
        let response = Response { attributes: Vec::new(), messages: Vec::new() };
        assert(response@ =~= ResponseView::empty());
        response
    }

    /// Adds an attribute at the end.
    pub fn add_attribute(self, key: &str, value: &str) -> (response: Response)
        ensures
            response@ == self@.add_attribute(key@, value@),
    {
        let mut response = self;
        response.attributes.push(
            Attribute { key: String::from_str(key), value: String::from_str(value) },
        );
        assert(response@ =~= self@.add_attribute(key@, value@));
        response
    }

    /// Adds a message at the end.
    pub fn add_message(self, message: WasmExecute) -> (response: Response)
        ensures
            response@ == self@.add_message(message@),
    {
        let mut response = self;
        response.messages.push(message);
        assert(response@ =~= self@.add_message(message@));
        response
    }
}

} // verus!
