use vstd::prelude::*;

verus! {

/// The side of a simulated position.
#[derive(Debug, Clone, Copy, PartialEq, Eq, Structural)]
pub enum PaperPositionSide {
    Long,
}

/// Why a simulated position was closed.
#[derive(Debug, Clone, Copy, PartialEq, Eq, Structural)]
pub enum PaperExitReason {
    TakeProfit,
    StopLoss,
}

} // verus!
