//! The start menu: any confirming input moves the game into the store
//! phase.

use vstd::prelude::*;
use crate::game_state::GameState;

verus! {

/// A press of the menu's start button.
pub fn button_system(pressed: bool) -> (next: Option<GameState>)
    ensures
        next == if pressed {
            Some(GameState::StoreSetup)
        } else {
            None::<GameState>
        },
{
    if pressed {
        Some(GameState::StoreSetup)
    } else {
        None
    }
}

/// Raw confirm inputs on the menu: a confirming key, or a confirming
/// gamepad button, starts the game.
pub fn input_start(keyboard_confirm: bool, gamepad_confirm: bool) -> (next: Option<GameState>)
    ensures
        next == if keyboard_confirm || gamepad_confirm {
            Some(GameState::StoreSetup)
        } else {
            None::<GameState>
        },
{
    if keyboard_confirm || gamepad_confirm {
        Some(GameState::StoreSetup)
    } else {
        None
    }
}

} // verus!
