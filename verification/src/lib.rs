//! Core rules of a small shop-and-farm game.
//!
//! The player moves through a linear loop: a start menu, a store phase
//! (an opening dialogue, pedestal selection, an inventory with a price
//! setter, and a closing purchase dialogue), and a farming phase in which
//! a 5x5 grid of crop tiles is advanced tick by tick by a queue of
//! purchased tools.  This crate holds the decisions and data of that
//! loop: the nested state machines, the dialogue-box controller, the
//! store's pricing and pedestal rules, and the farm simulation.  The
//! engine around it (rendering, input devices, asset loading) hands these
//! functions plain values and carries their results back to the screen.

pub mod dialog;
pub mod farm;
pub mod game_state;
pub mod inventory;
pub mod running;
pub mod start_menu;
pub mod store;
