use vstd::prelude::*;

use crate::state::{Coin, CoinView, coins_view};

verus! {

/// One key/value entry of the audit record a handler attaches to its result.
#[derive(Debug)]
pub struct Attribute {
    pub key: String,
    pub value: String,
}

/// Spec-level image of an [`Attribute`].
#[verifier::ext_equal]
pub ghost struct AttributeView {
    pub key: Seq<char>,
    pub value: Seq<char>,
}

impl View for Attribute {
    type V = AttributeView;

    open spec fn view(&self) -> AttributeView {
        AttributeView { key: self.key@, value: self.value@ }
    }
}

/// An effect the core asks the host to carry out after the invocation: a
/// transfer of funds out of the contract's balance.
#[derive(Debug)]
pub enum BankMsg {
    Send { to_address: String, amount: Vec<Coin> },
}

/// Spec-level image of a [`BankMsg`] (there is only the `Send` variant).
#[verifier::ext_equal]
pub ghost struct BankMsgView {
    pub to_address: Seq<char>,
    pub amount: Seq<CoinView>,
}

impl View for BankMsg {
    type V = BankMsgView;

    open spec fn view(&self) -> BankMsgView {
        match self {
            BankMsg::Send { to_address, amount } => BankMsgView {
                to_address: to_address@,
                amount: coins_view(amount@),
            },
        }
    }
}

/// What a successful invocation hands back to the host: the effects to carry
/// out and the audit record. The core never performs the effects itself.
#[derive(Debug)]
pub struct Response {
    pub messages: Vec<BankMsg>,
    pub attributes: Vec<Attribute>,
}

/// Spec-level image of a [`Response`].
#[verifier::ext_equal]
pub ghost struct ResponseView {
    pub messages: Seq<BankMsgView>,
    pub attributes: Seq<AttributeView>,
}

impl View for Response {
    type V = ResponseView;

    open spec fn view(&self) -> ResponseView {
        ResponseView {
            messages: self.messages@.map_values(|m: BankMsg| m@),
            attributes: self.attributes@.map_values(|a: Attribute| a@),
        }
    }
}

/// The view of a response with no effects and no audit record.
pub open spec fn empty_response() -> ResponseView {
    ResponseView { messages: Seq::empty(), attributes: Seq::empty() }
}

impl Response {
    /// A response with no effects and no audit record.
    pub fn new() -> (r: Response)
        ensures
            r@ == empty_response(),
    {
        let r = Response { messages: Vec::new(), attributes: Vec::new() };
        proof {
            assert(r@.messages =~= Seq::<BankMsgView>::empty());
            assert(r@.attributes =~= Seq::<AttributeView>::empty());
        }
        r
    }

    /// Appends one audit entry; effects are untouched.
    pub fn add_attribute(self, key: &str, value: &str) -> (r: Response)
        ensures
            r@.messages == self@.messages,
            r@.attributes == self@.attributes.push((AttributeView { key: key@, value: value@ })),
    {
        let mut r = self;
        r.attributes.push(Attribute { key: String::from_str(key), value: String::from_str(value) });
        proof {
            assert(r@.messages =~= self@.messages);
            assert(r@.attributes =~= self@.attributes.push(
                (AttributeView { key: key@, value: value@ }),
            ));
        }
        r
    }

    /// Appends one requested effect; the audit record is untouched.
    pub fn add_message(self, msg: BankMsg) -> (r: Response)
        ensures
            r@.attributes == self@.attributes,
            r@.messages == self@.messages.push(msg@),
    {
        let ghost m = msg@;
        let mut r = self;
        r.messages.push(msg);
        proof {
            assert(r@.attributes =~= self@.attributes);
            assert(r@.messages =~= self@.messages.push(m));
        }
        r
    }
}

} // verus!
