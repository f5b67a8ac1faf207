//! The store floor: pedestals, pointer hit-testing, and the hand-over
//! of purchased tools to the farming phase.
//!
//! The store shows a row of pedestals.  Clicking one selects it and
//! opens the inventory; committing a purchase parks an `ActiveItem` on
//! the selected pedestal.  When the player finishes, every pedestal's
//! item is collected, in pedestal order, into the `ActiveItems` queue
//! that drives the farm simulation.
//!
//! The game draws at whole-pixel positions through a pixel-scaled
//! camera, so pointer and sprite positions are modelled here as integer
//! world coordinates.

use vstd::prelude::*;
use std::collections::VecDeque;
use crate::dialog::{DialogExited, ShowDialog, Statement};
use crate::game_state::{GameState, StoreSetupState};
use crate::inventory::ActiveItem;

verus! {

/// A position in world space, in whole pixels.
#[derive(Clone, Copy, PartialEq, Eq, Structural, Debug)]
pub struct WorldPoint {
    pub x: i32,
    pub y: i32,
}

/// The side length of the square hit box around a pedestal's sprite.
pub const ITEM_DISPLAY_SIZE: i32 = 24;

/// A pedestal's on-screen display.
pub struct ItemDisplay;

impl ItemDisplay {
    /// Whether a pointer position falls inside the hit box centred on
    /// `center`.  All four comparisons are strict: a point exactly on
    /// the boundary of the box is outside.
    pub fn point_inside(point: WorldPoint, center: WorldPoint) -> (r: bool)
        ensures
            r == (center.x - ITEM_DISPLAY_SIZE / 2 < point.x < center.x + ITEM_DISPLAY_SIZE / 2
                && center.y - ITEM_DISPLAY_SIZE / 2 < point.y < center.y + ITEM_DISPLAY_SIZE / 2),
    {
        let half: i64 = (ITEM_DISPLAY_SIZE / 2) as i64;
        let px = point.x as i64;
        let py = point.y as i64;
        let cx = center.x as i64;
        let cy = center.y as i64;
        px > cx - half && px < cx + half && py > cy - half && py < cy + half
    }
}

/// The number of pedestals on the store floor.
pub const PEDESTAL_COUNT: usize = 3;

/// How far apart neighbouring pedestals stand, in pixels.
pub const PEDESTAL_SPACING: i32 = 48;

/// Where pedestal `i` stands: the pedestals form a row on the floor's
/// axis, one spacing apart.
pub fn pedestal_position(i: usize) -> (p: WorldPoint)
    requires
        i < PEDESTAL_COUNT,
    ensures
        p.x == (i as int) * (PEDESTAL_SPACING as int),
        p.y == 0,
{
    WorldPoint { x: (i as i32) * PEDESTAL_SPACING, y: 0 }
}

/// The pedestals' slots: `slots[i]` holds the tool parked on pedestal
/// `i`, if any.  Every parked tool has at least one use left, since a
/// purchase always commits a quantity of at least one.
pub struct Pedestals {
    pub slots: Vec<Option<ActiveItem>>,
}

impl Pedestals {
    pub open spec fn wf(&self) -> bool {
        forall|i: int|
            0 <= i < self.slots@.len() ==> (#[trigger] self.slots@[i] matches Some(a) ==> a.uses
                >= 1)
    }
}

/// The store floor as it first opens: all pedestals empty.
pub fn spawn_pedestals() -> (p: Pedestals)
    ensures
        p.wf(),
        p.slots@.len() == PEDESTAL_COUNT,
        forall|i: int| 0 <= i < PEDESTAL_COUNT ==> #[trigger] p.slots@[i] is None,
{
    let mut slots: Vec<Option<ActiveItem>> = Vec::new();
    slots.push(None);
    slots.push(None);
    slots.push(None);
    Pedestals { slots }
}

/// Which pedestal the player last clicked.
#[derive(Clone, Copy, PartialEq, Eq, Structural, Debug)]
pub struct SelectedPedestal(pub usize);

/// No pedestal's hit box before `n` contains the point.
pub open spec fn no_hit_before(point: WorldPoint, centers: Seq<WorldPoint>, n: int) -> bool {
    forall|j: int| 0 <= j < n ==> !spec_point_inside(point, #[trigger] centers[j])
}

/// The hit-box test as a predicate: strict on all four sides.
pub open spec fn spec_point_inside(point: WorldPoint, center: WorldPoint) -> bool {
    center.x - ITEM_DISPLAY_SIZE / 2 < point.x < center.x + ITEM_DISPLAY_SIZE / 2
        && center.y - ITEM_DISPLAY_SIZE / 2 < point.y < center.y + ITEM_DISPLAY_SIZE / 2
}

/// One tick of the pedestal-select screen's pointer handling.  While
/// the button is held (`pressed` is continuous, not edge-triggered) and
/// the pointer sits over a pedestal, the first such pedestal in order
/// is selected and the store moves to the inventory; this re-fires on
/// every tick the button stays held.
pub fn handle_pedestal_click(
    pressed: bool,
    cursor: Option<WorldPoint>,
    centers: &Vec<WorldPoint>,
) -> (r: Option<(SelectedPedestal, StoreSetupState)>)
    ensures
        match r {
            Some(sel) => {
                &&& pressed
                &&& cursor matches Some(p)
                &&& sel.1 == StoreSetupState::Inventory
                &&& sel.0.0 < centers@.len()
                &&& spec_point_inside(p, centers@[sel.0.0 as int])
                &&& no_hit_before(p, centers@, sel.0.0 as int)
            },
            None => !pressed || cursor is None || (cursor matches Some(p) && no_hit_before(
                p,
                centers@,
                centers@.len() as int,
            )),
        },
{
    if !pressed {
        return None;
    }
    let point = match cursor {
        Some(p) => p,
        None => {
            return None;
        }
    };
    let mut i: usize = 0;
    while i < centers.len()
        invariant
            pressed,
            cursor == Some(point),
            i <= centers@.len(),
            no_hit_before(point, centers@, i as int),
        decreases centers@.len() - i,
    {
        if ItemDisplay::point_inside(point, centers[i]) {
            return Some((SelectedPedestal(i), StoreSetupState::Inventory));
        }
        i = i + 1;
    }
    None
}

/// The button under the pedestal screen that ends item placement.
pub struct FinishButton;

impl FinishButton {
    /// Pressing the finish button moves the store to the farmer-buy
    /// confirmation.
    pub fn interaction_handler(pressed: bool) -> (next: Option<StoreSetupState>)
        ensures
            next == if pressed {
                Some(StoreSetupState::FarmerBuy)
            } else {
                None::<StoreSetupState>
            },
    {
        if pressed {
            Some(StoreSetupState::FarmerBuy)
        } else {
            None
        }
    }
}

/// Entering the farmer-buy step shows the confirmation dialogue at its
/// node.  The parsed script is handed in by the asset layer.
pub fn show_farmer_dialog(statements: Vec<Statement>) -> (d: ShowDialog)
    ensures
        d.start_node@ == "FarmerBuy"@,
        d.statements == statements,
{
    ShowDialog { statements, start_node: "FarmerBuy".to_owned() }
}

/// The queue of purchased tools the farming phase consumes, front
/// first.
pub struct ActiveItems {
    pub items: VecDeque<ActiveItem>,
}

impl ActiveItems {
    /// Every queued tool has at least one use left.
    pub open spec fn wf(&self) -> bool {
        forall|i: int| 0 <= i < self.items@.len() ==> #[trigger] self.items@[i].uses >= 1
    }
}

/// The items parked on the pedestals, in pedestal order, with the
/// empty pedestals left out.
pub open spec fn collected_items(s: Seq<Option<ActiveItem>>) -> Seq<ActiveItem>
    decreases s.len(),
{
    if s.len() == 0 {
        Seq::empty()
    } else {
        (match s[0] {
            Some(a) => seq![a],
            None => Seq::empty(),
        }) + collected_items(s.drop_first())
    }
}

/// Appending a pedestal on the right appends its item (or nothing) on
/// the right of the collection.
pub proof fn lemma_collected_items_push(s: Seq<Option<ActiveItem>>, x: Option<ActiveItem>)
    ensures
        collected_items(s.push(x)) == collected_items(s) + (match x {
            Some(a) => seq![a],
            None => Seq::<ActiveItem>::empty(),
        }),
    decreases s.len(),
{
    let unit = (match x {
        Some(a) => seq![a],
        None => Seq::<ActiveItem>::empty(),
    });
    if s.len() == 0 {
        assert(s.push(x).drop_first() =~= s);
        assert(collected_items(s) =~= Seq::empty());
        assert(collected_items(s.push(x)) =~= unit + collected_items(s));
        assert(collected_items(s.push(x)) =~= collected_items(s) + unit);
    } else {
        assert(s.push(x).drop_first() =~= s.drop_first().push(x));
        lemma_collected_items_push(s.drop_first(), x);
        assert(s.push(x)[0] == s[0]);
        assert(collected_items(s.push(x)) =~= collected_items(s) + unit);
    }
}

/// When the farmer-buy dialogue exits at its own node, the pedestals'
/// items are collected in order into the queue and the game moves to
/// the farming battle; an exit notice from any other node does nothing.
pub fn farmer_buy_done(event: &DialogExited, pedestals: &Pedestals) -> (r: Option<
    (ActiveItems, GameState),
>)
    requires
        pedestals.wf(),
    ensures
        match r {
            Some(out) => {
                &&& event.node@ == "FarmerBuy"@
                &&& out.0.items@ == collected_items(pedestals.slots@)
                &&& out.0.wf()
                &&& out.1 == GameState::FarmingBattle
            },
            None => event.node@ != "FarmerBuy"@,
        },
{
    let farmer_buy: String = "FarmerBuy".to_owned();
    if !(event.node == farmer_buy) {
        return None;
    }
    let mut items: VecDeque<ActiveItem> = VecDeque::new();
    let mut i: usize = 0;
    while i < pedestals.slots.len()
        invariant
            pedestals.wf(),
            i <= pedestals.slots@.len(),
            items@ == collected_items(pedestals.slots@.take(i as int)),
            forall|k: int| 0 <= k < items@.len() ==> #[trigger] items@[k].uses >= 1,
        decreases pedestals.slots@.len() - i,
    {
        match pedestals.slots[i] {
            Some(a) => {
                items.push_back(a);
            }
            None => {}
        }
        proof {
            assert(pedestals.slots@.take(i + 1) =~= pedestals.slots@.take(i as int).push(
                pedestals.slots@[i as int],
            ));
            lemma_collected_items_push(pedestals.slots@.take(i as int), pedestals.slots@[i as int]);
        }
        i = i + 1;
    }
    proof {
        assert(pedestals.slots@.take(pedestals.slots@.len() as int) =~= pedestals.slots@);
    }
    Some((ActiveItems { items }, GameState::FarmingBattle))
}

} // verus!
