//! Classification of a trading signal into open/close and buy/sell legs.
use vstd::prelude::*;

verus! {

/// What a trading signal asks the execution layer to do.
#[derive(Clone, Copy, Debug, PartialEq, Eq, Structural, Default)]
pub enum TradeAction {
    #[default]
    BuyOpen,
    BuyClose,
    SellOpen,
    SellClose,
}

impl TradeAction {
    /// Whether the action opens (rather than closes) a position.
    pub fn is_open(&self) -> (r: bool)
        ensures
            r == (self is BuyOpen || self is SellOpen),
    {
        matches!(self, TradeAction::BuyOpen | TradeAction::SellOpen)
    }

    /// Whether the action buys (rather than sells).
    pub fn is_buy(&self) -> (r: bool)
        ensures
            r == (self is BuyOpen || self is BuyClose),
    {
        matches!(self, TradeAction::BuyOpen | TradeAction::BuyClose)
    }
}

} // verus!
