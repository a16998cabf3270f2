use vstd::prelude::*;

use crate::state::{Coin, CoinView, coins_view};

verus! {

/// Per-invocation context the host supplies: who called, and which funds the
/// call carried. The attached funds are already credited to the contract's
/// balance by the host before the handler runs.
pub struct MessageInfo {
    pub sender: String,
    pub funds: Vec<Coin>,
}

/// Spec-level image of a [`MessageInfo`].
#[verifier::ext_equal]
pub ghost struct MessageInfoView {
    pub sender: Seq<char>,
    pub funds: Seq<CoinView>,
}

impl View for MessageInfo {
    type V = MessageInfoView;

    open spec fn view(&self) -> MessageInfoView {
        MessageInfoView { sender: self.sender@, funds: coins_view(self.funds@) }
    }
}

/// The instantiation message: the counter's starting value and the donation
/// threshold.
pub struct InstantiateMsg {
    pub counter: u64,
    pub minimal_donation: Coin,
}

/// The query surface: read the counter, or increment a caller-supplied value.
pub enum QueryMsg {
    Value {},
    Incremented { value: u64 },
}

/// The execution surface: donate, overwrite the counter, or withdraw the
/// contract's balance.
pub enum ExecMsg {
    Donate {},
    Reset { counter: u64 },
    Withdraw {},
}

/// A query answer carrying one counter value.
#[derive(Debug, PartialEq, Eq, Structural)]
pub struct ValueResp {
    pub value: u64,
}

} // verus!
