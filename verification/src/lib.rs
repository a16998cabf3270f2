pub mod contract;
pub mod decimal;
pub mod laws;
pub mod msg;
pub mod response;
pub mod state;

use vstd::prelude::*;

use crate::contract::{
    counted_response, spec_donate_counter, spec_donate_store, spec_instantiate, spec_reset_store,
    spec_value, withdraw_response, wrap_inc,
};
use crate::msg::{ExecMsg, InstantiateMsg, MessageInfo, QueryMsg, ValueResp};
use crate::response::{empty_response, Response};
use crate::state::{coins_view, Coin, Store};

verus! {

/// The failure of a storage access: the slot named `kind` was absent. Always
/// fatal; the host discards every pending write of the invocation.
#[derive(Debug, PartialEq)]
pub enum StdError {
    NotFound { kind: String },
}

/// Is `e` the absent-slot failure for the slot named `kind`?
pub open spec fn is_not_found(e: StdError, kind: Seq<char>) -> bool {
    e matches StdError::NotFound { kind: k } && k@ == kind
}

/// Everything an execution handler can fail with: a storage failure, or a
/// refused withdrawal carrying the owner's identity for the invoker to see.
#[derive(Debug, PartialEq)]
pub enum ContractError {
    Std(StdError),
    Unauthorized { owner: String },
}

/// Entry point for the instantiate message: writes the whole record.
pub fn instantiate(store: &mut Store, info: &MessageInfo, msg: InstantiateMsg) -> (r: Result<
    Response,
    StdError,
>)
    ensures
        final(store)@ == spec_instantiate(info@.sender, msg.counter, msg.minimal_donation@),
        r matches Ok(resp) && resp@ == empty_response(),
{
    let InstantiateMsg { counter, minimal_donation } = msg;
    contract::instantiate(store, info, counter, minimal_donation)
}

/// Entry point for the query surface: dispatches on the message variant.
pub fn query(store: &Store, msg: &QueryMsg) -> (r: Result<ValueResp, StdError>)
    ensures
        msg is Value && spec_value(store@) is Some ==> r == Ok::<ValueResp, StdError>(
            (ValueResp { value: spec_value(store@)->0 }),
        ),
        msg is Value && spec_value(store@) is None ==> (r matches Err(e) && is_not_found(
            e,
            "counter"@,
        )),
        msg matches QueryMsg::Incremented { value } ==> r == Ok::<ValueResp, StdError>(
            (ValueResp { value: wrap_inc(*value) }),
        ),
{
    match msg {
        QueryMsg::Value {} => contract::value(store),
        QueryMsg::Incremented { value } => Ok(contract::incremented(*value)),
    }
}

/// Entry point for the execution surface: dispatches on the message variant.
/// `contract_balance` is the host ledger's report of the funds the contract
/// holds, injected by the host shim; only a withdrawal reads it.
pub fn execute(
    store: &mut Store,
    info: &MessageInfo,
    contract_balance: Vec<Coin>,
    msg: &ExecMsg,
) -> (r: Result<Response, ContractError>)
    ensures
        msg is Donate && old(store)@.counter is None ==> (r matches Err(ContractError::Std(e))
            && is_not_found(e, "counter"@) && final(store)@ == old(store)@),
        msg is Donate && old(store)@.counter is Some && old(store)@.minimal_donation is None ==> (
        r matches Err(ContractError::Std(e)) && is_not_found(e, "minimal_donation"@)
            && final(store)@ == old(store)@),
        msg is Donate && old(store)@.counter is Some && old(store)@.minimal_donation is Some ==> ({
            &&& final(store)@ == spec_donate_store(old(store)@, info@.funds)
            &&& r matches Ok(resp) && resp@ == counted_response(
                "donate"@,
                info@.sender,
                spec_donate_counter(
                    old(store)@.counter->0,
                    old(store)@.minimal_donation->0,
                    info@.funds,
                ),
            )
        }),
        msg matches ExecMsg::Reset { counter } ==> (r matches Ok(resp) && resp@
            == counted_response("reset"@, info@.sender, *counter) && final(store)@
            == spec_reset_store(old(store)@, *counter)),
        msg is Withdraw ==> final(store)@ == old(store)@,
        msg is Withdraw && old(store)@.owner is None ==> (r matches Err(ContractError::Std(e))
            && is_not_found(e, "owner"@)),
        msg is Withdraw && old(store)@.owner is Some && old(store)@.owner->0 != info@.sender ==> (
        r matches Err(ContractError::Unauthorized { owner }) && owner@ == old(store)@.owner->0),
        msg is Withdraw && old(store)@.owner is Some && old(store)@.owner->0 == info@.sender ==> (
        r matches Ok(resp) && resp@ == withdraw_response(
            info@.sender,
            coins_view(contract_balance@),
        )),
{
    match msg {
        ExecMsg::Donate {} => match contract::donate(store, info) {
            Ok(resp) => Ok(resp),
            Err(e) => Err(ContractError::Std(e)),
        },
        ExecMsg::Reset { counter } => match contract::reset(store, info, *counter) {
            Ok(resp) => Ok(resp),
            Err(e) => Err(ContractError::Std(e)),
        },
        ExecMsg::Withdraw {} => contract::withdraw(store, info, contract_balance),
    }
}

} // verus!
