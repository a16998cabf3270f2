use vstd::prelude::*;

use crate::decimal::{dec_digits, u64_to_string};
use crate::msg::{MessageInfo, ValueResp};
use crate::response::{empty_response, AttributeView, BankMsg, BankMsgView, Response, ResponseView};
use crate::state::{coins_view, Coin, CoinView, Store, StoreView};
use crate::{ContractError, StdError};

verus! {

/// Increment that wraps around at the top of the `u64` range: the counter's
/// chosen overflow policy.
pub open spec fn wrap_inc(v: u64) -> u64 {
    if v == u64::MAX {
        0
    } else {
        (v + 1) as u64
    }
}

/// Does one fund entry meet the threshold: same denomination, and at least the
/// threshold amount?
pub open spec fn coin_qualifies(c: CoinView, md: CoinView) -> bool {
    c.denom == md.denom && c.amount >= md.amount
}

/// Does any of the attached fund entries meet the threshold?
pub open spec fn spec_qualifies(funds: Seq<CoinView>, md: CoinView) -> bool {
    exists|i: int| 0 <= i < funds.len() && coin_qualifies(#[trigger] funds[i], md)
}

/// The record instantiation writes: all three slots filled.
pub open spec fn spec_instantiate(sender: Seq<char>, counter0: u64, md: CoinView) -> StoreView {
    StoreView { counter: Some(counter0), minimal_donation: Some(md), owner: Some(sender) }
}

/// What the Value query reads.
pub open spec fn spec_value(s: StoreView) -> Option<u64> {
    s.counter
}

/// The counter a donation leaves behind, given the counter and threshold it
/// loaded.
pub open spec fn spec_donate_counter(c: u64, md: CoinView, funds: Seq<CoinView>) -> u64 {
    if spec_qualifies(funds, md) {
        wrap_inc(c)
    } else {
        c
    }
}

/// The record a donation leaves behind: the counter is bumped exactly when
/// both slots it loads are present and some fund entry meets the threshold;
/// every other slot is untouched.
pub open spec fn spec_donate_store(s: StoreView, funds: Seq<CoinView>) -> StoreView {
    match (s.counter, s.minimal_donation) {
        (Some(c), Some(md)) => if spec_qualifies(funds, md) {
            StoreView { counter: Some(wrap_inc(c)), ..s }
        } else {
            s
        },
        _ => s,
    }
}

/// The record a reset leaves behind: the counter overwritten, the rest
/// untouched.
pub open spec fn spec_reset_store(s: StoreView, counter: u64) -> StoreView {
    StoreView { counter: Some(counter), ..s }
}

/// The two audit entries every execution handler attaches: which action ran,
/// and who called it.
pub open spec fn action_attrs(action: Seq<char>, sender: Seq<char>) -> Seq<AttributeView> {
    seq![
        AttributeView { key: "action"@, value: action },
        AttributeView { key: "sender"@, value: sender },
    ]
}

/// The response of a counter-touching handler: no effects, and an audit record
/// that reports the resulting counter in decimal.
pub open spec fn counted_response(action: Seq<char>, sender: Seq<char>, counter: u64) -> ResponseView {
    ResponseView {
        messages: Seq::empty(),
        attributes: action_attrs(action, sender).push(
            AttributeView { key: "counter"@, value: dec_digits(counter as nat) },
        ),
    }
}

/// The response of a successful withdrawal: one requested transfer of the
/// whole balance to the caller, and the audit record.
pub open spec fn withdraw_response(sender: Seq<char>, balance: Seq<CoinView>) -> ResponseView {
    ResponseView {
        messages: seq![BankMsgView { to_address: sender, amount: balance }],
        attributes: action_attrs("withdraw"@, sender),
    }
}

/// Writes the initial counter, the donation threshold and the caller as owner.
/// No input is validated, by design; in this record model a write cannot fail,
/// so the result is always `Ok`.
pub fn instantiate(
    store: &mut Store,
    info: &MessageInfo,
    counter: u64,
    minimal_donation: Coin,
) -> (r: Result<Response, StdError>)
    ensures
        final(store)@ == spec_instantiate(info@.sender, counter, minimal_donation@),
        r matches Ok(resp) && resp@ == empty_response(),
{
    store.counter = Some(counter);
    store.minimal_donation = Some(minimal_donation);
    store.owner = Some(info.sender.clone());
    Ok(Response::new())
}

/// Reads the counter. Fails exactly when the counter slot is absent, which
/// cannot happen after instantiation.
pub fn value(store: &Store) -> (r: Result<ValueResp, StdError>)
    ensures
        spec_value(store@) is Some ==> r == Ok::<ValueResp, StdError>(
            (ValueResp { value: spec_value(store@)->0 }),
        ),
        spec_value(store@) is None ==> (r matches Err(e) && crate::is_not_found(e, "counter"@)),
{
    match &store.counter {
        Some(c) => Ok(ValueResp { value: *c }),
        None => Err(StdError::NotFound { kind: String::from_str("counter") }),
    }
}

/// Pure computation: the successor of `value` under the wrapping policy. No
/// storage access, no side effect.
pub fn incremented(value: u64) -> (r: ValueResp)
    ensures
        r == (ValueResp { value: wrap_inc(value) }),
{
    if value == u64::MAX {
        ValueResp { value: 0 }
    } else {
        ValueResp { value: value + 1 }
    }
}

/// Does any entry of `funds` meet the threshold `md`?
fn any_coin_qualifies(funds: &Vec<Coin>, md: &Coin) -> (b: bool)
    ensures
        b == spec_qualifies(coins_view(funds@), md@),
{
    let mut i: usize = 0;
    while i < funds.len()
        invariant
            i <= funds.len(),
            forall|j: int| 0 <= j < i ==> !coin_qualifies(#[trigger] coins_view(funds@)[j], md@),
        decreases funds.len() - i,
    {
        let c = &funds[i];
        if c.denom == md.denom && c.amount >= md.amount {
            proof {
                assert(coin_qualifies(coins_view(funds@)[i as int], md@));
            }
            return true;
        }
        i += 1;
    }
    false
}

/// Loads the counter and the threshold; if any attached fund entry meets the
/// threshold, increments the counter by exactly one (wrapping at the top of
/// the range, the chosen overflow policy) and persists it, else
/// leaves the record untouched (a silent no-op, not a failure). Attached funds
/// are kept by the contract either way: the host credits them before the
/// handler runs, and nothing here refunds them. The audit record reports the
/// resulting counter in both cases.
pub fn donate(store: &mut Store, info: &MessageInfo) -> (r: Result<Response, StdError>)
    ensures
        old(store)@.counter is None ==> (r matches Err(e) && crate::is_not_found(e, "counter"@)
            && final(store)@ == old(store)@),
        old(store)@.counter is Some && old(store)@.minimal_donation is None ==> (r matches Err(e)
            && crate::is_not_found(e, "minimal_donation"@) && final(store)@ == old(store)@),
        old(store)@.counter is Some && old(store)@.minimal_donation is Some ==> ({
            &&& final(store)@ == spec_donate_store(old(store)@, info@.funds)
            &&& r matches Ok(resp) && resp@ == counted_response(
                "donate"@,
                info@.sender,
                spec_donate_counter(
                    old(store)@.counter->0,
                    old(store)@.minimal_donation->0,
                    info@.funds,
                ),
            )
        }),
{
    let counter0 = match &store.counter {
        Some(c) => *c,
        None => {
            return Err(StdError::NotFound { kind: String::from_str("counter") });
        },
    };
    let qualifies = match &store.minimal_donation {
        Some(md) => any_coin_qualifies(&info.funds, md),
        None => {
            return Err(StdError::NotFound { kind: String::from_str("minimal_donation") });
        },
    };
    let counter = if qualifies {
        if counter0 == u64::MAX {
            0
        } else {
            counter0 + 1
        }
    } else {
        counter0
    };
    if qualifies {
        store.counter = Some(counter);
    }
    proof {
        assert(store@ =~= spec_donate_store(old(store)@, info@.funds));
    }
    let counter_text = u64_to_string(counter);
    let resp = Response::new().add_attribute("action", "donate").add_attribute(
        "sender",
        info.sender.as_str(),
    ).add_attribute("counter", counter_text.as_str());
    proof {
        assert(resp@ =~= counted_response("donate"@, info@.sender, counter));
    }
    Ok(resp)
}

/// Overwrites the counter with `counter`, for any caller: by design there is
/// no authorization check here, in contrast with `withdraw`.
pub fn reset(store: &mut Store, info: &MessageInfo, counter: u64) -> (r: Result<
    Response,
    StdError,
>)
    ensures
        final(store)@ == spec_reset_store(old(store)@, counter),
        r matches Ok(resp) && resp@ == counted_response("reset"@, info@.sender, counter),
{
    store.counter = Some(counter);
    let counter_text = u64_to_string(counter);
    let resp = Response::new().add_attribute("action", "reset").add_attribute(
        "sender",
        info.sender.as_str(),
    ).add_attribute("counter", counter_text.as_str());
    proof {
        assert(store@ =~= spec_reset_store(old(store)@, counter));
        assert(resp@ =~= counted_response("reset"@, info@.sender, counter));
    }
    Ok(resp)
}

/// Checks that the caller is the owner; a stranger is refused with
/// `Unauthorized` carrying the owner's identity. For the owner, requests one
/// transfer of `balance` — the contract's entire balance, as the host's ledger
/// reports it — to the caller. Never mutates the record; the transfer itself
/// is the host's to carry out after the invocation returns.
pub fn withdraw(store: &mut Store, info: &MessageInfo, balance: Vec<Coin>) -> (r: Result<
    Response,
    ContractError,
>)
    ensures
        final(store)@ == old(store)@,
        old(store)@.owner is None ==> (r matches Err(ContractError::Std(e))
            && crate::is_not_found(e, "owner"@)),
        old(store)@.owner is Some && old(store)@.owner->0 != info@.sender ==> (r matches Err(
            ContractError::Unauthorized { owner },
        ) && owner@ == old(store)@.owner->0),
        old(store)@.owner is Some && old(store)@.owner->0 == info@.sender ==> (r matches Ok(resp)
            && resp@ == withdraw_response(info@.sender, coins_view(balance@))),
{
    let owner = match &store.owner {
        Some(o) => o,
        None => {
            return Err(ContractError::Std(StdError::NotFound { kind: String::from_str("owner") }));
        },
    };
    if info.sender != *owner {
        return Err(ContractError::Unauthorized { owner: owner.clone() });
    }
    let bank_msg = BankMsg::Send { to_address: info.sender.clone(), amount: balance };
    let resp = Response::new().add_message(bank_msg).add_attribute(
        "action",
        "withdraw",
    ).add_attribute("sender", info.sender.as_str());
    proof {
        assert(resp@ =~= withdraw_response(info@.sender, coins_view(balance@)));
    }
    Ok(resp)
}

} // verus!
