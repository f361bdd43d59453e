//! The outcome record of an operation: attributes for the host to log and
//! transfers for the host to carry out.
use vstd::prelude::*;
use vstd::string::StringExecFns;
use crate::coin::{Coin, CoinView};

verus! {

/// A key with its value.
#[derive(Debug, PartialEq, Eq)]
pub struct Attribute {
    pub key: String,
    pub value: String,
}

/// What an [`Attribute`] stands for in contracts.
pub struct AttributeView {
    pub key: Seq<char>,
    pub value: Seq<char>,
}

impl View for Attribute {
    type V = AttributeView;

    open spec fn view(&self) -> AttributeView {
        AttributeView { key: self.key@, value: self.value@ }
    }
}

/// An instruction to send `coin` to `to_address`.
#[derive(Debug, PartialEq, Eq)]
pub struct Transfer {
    pub to_address: String,
    pub coin: Coin,
}

/// What a [`Transfer`] stands for in contracts.
pub struct TransferView {
    pub to_address: Seq<char>,
    pub coin: CoinView,
}

impl View for Transfer {
    type V = TransferView;

    open spec fn view(&self) -> TransferView {
        TransferView { to_address: self.to_address@, coin: self.coin@ }
    }
}

/// What an operation hands to the host.
#[derive(Debug, PartialEq, Eq)]
pub struct Response {
    pub messages: Vec<Transfer>,
    pub attributes: Vec<Attribute>,
}

/// What a [`Response`] stands for in contracts.
pub struct ResponseView {
    pub messages: Seq<TransferView>,
    pub attributes: Seq<AttributeView>,
}

impl ResponseView {
    /// The record without transfers or attributes.
    pub open spec fn empty() -> ResponseView {
        ResponseView { messages: Seq::empty(), attributes: Seq::empty() }
    }

    /// This record with one more attribute.
    pub open spec fn add_attribute(self, key: Seq<char>, value: Seq<char>) -> ResponseView {
        ResponseView {
            attributes: self.attributes.push(AttributeView { key, value }),
            ..self
        }
    }

    /// This record with one more transfer.
    pub open spec fn add_message(self, message: TransferView) -> ResponseView {
        ResponseView { messages: self.messages.push(message), ..self }
    }
}

impl View for Response {
    type V = ResponseView;

    open spec fn view(&self) -> ResponseView {
        ResponseView {
            messages: self.messages@.map_values(|message: Transfer| message@),
            attributes: self.attributes@.map_values(|attribute: Attribute| attribute@),
        }
    }
}

impl Default for Response {
    fn default() -> (response: Response)
        ensures
            response@ == ResponseView::empty(),
    {
        let response = Response { messages: Vec::new(), attributes: Vec::new() };
        assert(response@.messages =~= Seq::empty());
        assert(response@.attributes =~= Seq::empty());
        response
    }
}

impl Response {
    /// Appends the attribute `key` with `value`.
    pub fn add_attribute(self, key: &str, value: String) -> (response: Response)
        ensures
            response@ == self@.add_attribute(key@, value@),
    {
        let mut response = self;
        response.attributes.push(Attribute { key: String::from_str(key), value });
        assert(response@.attributes =~= self@.add_attribute(key@, value@).attributes);
        response
    }

    /// Appends the transfer `message`.
    pub fn add_message(self, message: Transfer) -> (response: Response)
        ensures
            response@ == self@.add_message(message@),
    {
        let mut response = self;
        response.messages.push(message);
        assert(response@.messages =~= self@.add_message(message@).messages);
        response
    }
}

} // verus!
