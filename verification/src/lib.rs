//! Position-accounting and risk-control core of an automated trading
//! strategy: one tradable position is tracked from order placement through
//! partial fills, inversions, risk-triggered exits, and final close, with
//! exact fixed-point profit-and-loss accounting.
use vstd::prelude::*;

pub mod decimal;
pub mod laws;
pub mod position_manager;
pub mod trade_chance;

pub use decimal::Decimal;
pub use position_manager::{
    Order, OrderState, OrderType, Position, PositionError, PositionState, ReasonForClose,
};
pub use trade_chance::TradeAction;

verus! {

/// Directional stance of a position.
#[derive(Clone, Copy, Debug, PartialEq, Eq, Structural, Default)]
pub enum PositionType {
    #[default]
    Long,
    Short,
    HedgeLong,
    HedgeShort,
}

impl PositionType {
    /// The stance taken when the position flips direction.
    pub open spec fn spec_opposite(self) -> PositionType {
        match self {
            PositionType::Long => PositionType::Short,
            PositionType::Short => PositionType::Long,
            PositionType::HedgeLong => PositionType::HedgeShort,
            PositionType::HedgeShort => PositionType::HedgeLong,
        }
    }

    /// Maps each stance to the one it inverts into on an oversized
    /// counter-fill.
    pub fn opposite(&self) -> (r: PositionType)
        ensures
            r == self.spec_opposite(),
    {
        match self {
            PositionType::Long => PositionType::Short,
            PositionType::Short => PositionType::Long,
            PositionType::HedgeLong => PositionType::HedgeShort,
            PositionType::HedgeShort => PositionType::HedgeLong,
        }
    }

    /// A printable label for the stance.
    pub fn label(&self) -> (r: &'static str)
        ensures
            self is Long ==> r@ == "Long"@,
            self is Short ==> r@ == "Short"@,
            self is HedgeLong ==> r@ == "HedgeLong"@,
            self is HedgeShort ==> r@ == "HedgeShort"@,
    {
        match self {
            PositionType::Long => "Long",
            PositionType::Short => "Short",
            PositionType::HedgeLong => "HedgeLong",
            PositionType::HedgeShort => "HedgeShort",
        }
    }
}

} // verus!
