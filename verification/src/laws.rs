use vstd::prelude::*;

use crate::contract::{
    spec_donate_store, spec_instantiate, spec_qualifies, spec_reset_store, spec_value, wrap_inc,
};
use crate::state::{CoinView, StoreView};

verus! {

/// Law: after an instantiation with starting counter `counter0`, the Value
/// query reads back exactly `counter0`, whoever instantiated and whatever the
/// threshold.
pub proof fn lemma_instantiate_then_value(sender: Seq<char>, counter0: u64, md: CoinView)
    ensures
        spec_value(spec_instantiate(sender, counter0, md)) == Some(counter0),
{
}

/// Law: with no attached funds, no entry can meet any threshold.
pub proof fn lemma_no_funds_never_qualify(md: CoinView)
    ensures
        !spec_qualifies(Seq::empty(), md),
{
}

/// Law: a donation whose attached funds meet no threshold entry leaves the
/// whole record — the counter the Value query reads in particular — unchanged.
/// This also covers a donation with no attached funds at all.
pub proof fn lemma_donate_below_threshold(s: StoreView, funds: Seq<CoinView>)
    requires
        s.minimal_donation is Some ==> !spec_qualifies(funds, s.minimal_donation->0),
    ensures
        spec_donate_store(s, funds) == s,
        spec_value(spec_donate_store(s, funds)) == spec_value(s),
{
}

/// Law: a donation with at least one qualifying fund entry increments the
/// counter by exactly one (wrapping at the top of the range), however many
/// qualifying or non-qualifying entries the funds also carry.
pub proof fn lemma_donate_meets_threshold(s: StoreView, funds: Seq<CoinView>)
    requires
        s.counter is Some,
        s.minimal_donation is Some,
        spec_qualifies(funds, s.minimal_donation->0),
    ensures
        spec_value(spec_donate_store(s, funds)) == Some(wrap_inc(s.counter->0)),
{
}

/// Law: a reset followed by the Value query yields the new counter, for every
/// prior record. No caller appears here because a reset is unconditional: by
/// design it needs no authorization.
pub proof fn lemma_reset_then_value(s: StoreView, counter: u64)
    ensures
        spec_value(spec_reset_store(s, counter)) == Some(counter),
{
}

} // verus!
