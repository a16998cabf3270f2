use vstd::prelude::*;

verus! {

/// A fungible-asset amount: a denomination (the unit identifier of the asset)
/// together with a quantity of that unit.
#[derive(Clone, Debug, PartialEq)]
pub struct Coin {
    pub denom: String,
    pub amount: u128,
}

/// Spec-level image of a [`Coin`].
#[verifier::ext_equal]
pub ghost struct CoinView {
    pub denom: Seq<char>,
    pub amount: u128,
}

impl View for Coin {
    type V = CoinView;

    open spec fn view(&self) -> CoinView {
        CoinView { denom: self.denom@, amount: self.amount }
    }
}

/// Spec-level image of a list of coins.
pub open spec fn coins_view(s: Seq<Coin>) -> Seq<CoinView> {
    s.map_values(|c: Coin| c@)
}

/// The contract's persistent record, as the host's key-value store holds it:
/// three independent slots, each either present or absent. The host hands the
/// record to a handler at the start of an invocation and persists whatever the
/// handler leaves behind, atomically.
#[derive(Clone)]
pub struct Store {
    /// The donation counter.
    pub counter: Option<u64>,
    /// The threshold a donation must meet to count; immutable after
    /// instantiation.
    pub minimal_donation: Option<Coin>,
    /// The identity of the instantiating caller; immutable after
    /// instantiation.
    pub owner: Option<String>,
}

/// Spec-level image of a [`Store`].
#[verifier::ext_equal]
pub ghost struct StoreView {
    pub counter: Option<u64>,
    pub minimal_donation: Option<CoinView>,
    pub owner: Option<Seq<char>>,
}

impl View for Store {
    type V = StoreView;

    open spec fn view(&self) -> StoreView {
        StoreView {
            counter: self.counter,
            minimal_donation: match self.minimal_donation {
                Some(c) => Some(c@),
                None => None,
            },
            owner: match self.owner {
                Some(o) => Some(o@),
                None => None,
            },
        }
    }
}

impl Store {
    /// A record with every slot absent: the state before instantiation.
    pub fn new() -> (s: Store)
        ensures
            s@ == (StoreView { counter: None, minimal_donation: None, owner: None }),
    {
        Store { counter: None, minimal_donation: None, owner: None }
    }
}

} // verus!
