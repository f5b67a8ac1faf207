//! The nested game-flow state machines.
//!
//! Exactly one top-level `GameState` is active at a time.  Each phase
//! with inner structure carries a nested sub-state machine that is reset
//! to `Inactive` whenever the parent state is exited and initialised to a
//! deterministic start value when it is entered.

use vstd::prelude::*;

verus! {

/// The top-level game flow.  `Failed` and `Success` are terminal sinks:
/// no transition in this crate leaves them.
#[derive(Clone, Copy, PartialEq, Eq, Structural, Debug, Hash)]
pub enum GameState {
    Start,
    StoreSetup,
    FarmingBattle,
    Failed,
    Success,
}

/// Sub-states of the store phase.  `Inactive` holds whenever the parent
/// `GameState` is not `StoreSetup`.
#[derive(Clone, Copy, PartialEq, Eq, Structural, Debug, Hash)]
pub enum StoreSetupState {
    Inactive,
    OpeningDialog,
    PedestalSelect,
    Inventory,
    PriceSelect,
    FarmerBuy,
}

/// Sub-states of the farming phase.  `Inactive` holds whenever the parent
/// `GameState` is not `FarmingBattle`.
#[derive(Clone, Copy, PartialEq, Eq, Structural, Debug, Hash)]
pub enum FarmingBattleState {
    Inactive,
    CheckSeeded,
    ApplyItems,
    CheckFailed,
    ShowSummary,
}

impl Default for GameState {
    /// A fresh game sits at the start menu.
    fn default() -> (s: Self)
        ensures
            s == GameState::Start,
    {
        GameState::Start
    }
}

impl Default for StoreSetupState {
    /// Outside the store phase the sub-machine is inactive.
    fn default() -> (s: Self)
        ensures
            s == StoreSetupState::Inactive,
    {
        StoreSetupState::Inactive
    }
}

impl Default for FarmingBattleState {
    /// Outside the farming phase the sub-machine is inactive.
    fn default() -> (s: Self)
        ensures
            s == FarmingBattleState::Inactive,
    {
        FarmingBattleState::Inactive
    }
}

impl StoreSetupState {
    /// The sub-state to install when the store phase is exited.
    pub fn exit_state() -> (s: StoreSetupState)
        ensures
            s == StoreSetupState::Inactive,
    {
        StoreSetupState::Inactive
    }
}

impl FarmingBattleState {
    /// The sub-state to install when the farming phase is entered.
    pub fn enter_state() -> (s: FarmingBattleState)
        ensures
            s == FarmingBattleState::CheckSeeded,
    {
        FarmingBattleState::CheckSeeded
    }

    /// The sub-state to install when the farming phase is exited.
    pub fn exit_state() -> (s: FarmingBattleState)
        ensures
            s == FarmingBattleState::Inactive,
    {
        FarmingBattleState::Inactive
    }
}

} // verus!
