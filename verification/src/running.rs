//! The store phase's opening flow: entering the store starts the
//! welcome dialogue, and its exit releases the player onto the floor.

use vstd::prelude::*;
use crate::dialog::{DialogExited, ShowDialog, Statement};
use crate::game_state::StoreSetupState;

verus! {

/// Entering the store phase starts its sub-machine at the opening
/// dialogue.
pub fn transition_store_setup() -> (s: StoreSetupState)
    ensures
        s == StoreSetupState::OpeningDialog,
{
    StoreSetupState::OpeningDialog
}

/// The opening dialogue: the welcome script at its node.  The parsed
/// script is handed in by the asset layer.
pub fn introduction(statements: Vec<Statement>) -> (d: ShowDialog)
    ensures
        d.start_node@ == "Welcome"@,
        d.statements == statements,
{
    ShowDialog { statements, start_node: "Welcome".to_owned() }
}

/// When the welcome dialogue exits at its own node, the store moves on
/// to pedestal selection; an exit notice from any other node does
/// nothing.
pub fn welcome_done(event: &DialogExited) -> (next: Option<StoreSetupState>)
    ensures
        next == if event.node@ == "Welcome"@ {
            Some(StoreSetupState::PedestalSelect)
        } else {
            None::<StoreSetupState>
        },
{
    let welcome: String = "Welcome".to_owned();
    if event.node == welcome {
        Some(StoreSetupState::PedestalSelect)
    } else {
        None
    }
}

} // verus!
