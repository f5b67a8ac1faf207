//! The farm simulation: a 5x5 grid of crop tiles advanced tick by tick
//! by the queue of purchased tools.
//!
//! The battle runs in phases.  Entering it first ripens every watered
//! sprout, then `CheckSeeded` sprouts seeded tiles one per tick,
//! `ApplyItems` consumes the tool queue front first, `CheckFailed`
//! withers unwatered sprouts one per tick, and `ShowSummary` hands
//! control back to the store through the summary dialogue.  Converting
//! one tile per tick is deliberate pacing: the driving timer shows the
//! field changing step by step.

use vstd::prelude::*;
use crate::dialog::{DialogExited, ShowDialog, Statement};
use crate::game_state::{FarmingBattleState, GameState};
use crate::inventory::{ActiveItem, ItemType};
use crate::store::ActiveItems;

verus! {

/// How many tiles the farm has: a five-by-five grid.
pub const FARM_TILES: usize = 25;

/// The growth state of one tile.
#[derive(Clone, Copy, PartialEq, Eq, Structural, Debug)]
pub enum FarmTile {
    Dirt,
    Tilled,
    Seeded,
    SproutedDry,
    SproutedWet,
    FullGrown,
    Failed,
}

/// The sprite shown for each tile state.  The mapping is total: every
/// state has a picture, so no tile can become unrenderable.
pub open spec fn spec_asset_path(t: FarmTile) -> Seq<char> {
    match t {
        FarmTile::Dirt => "images/Dirt_Tile.png"@,
        FarmTile::Tilled => "images/Tilled_Tile.png"@,
        FarmTile::Seeded => "images/Seed_Tile.png"@,
        FarmTile::SproutedDry => "images/Dry_Sprout_Tile.png"@,
        FarmTile::SproutedWet => "images/Watered_Sprout_Tile.png"@,
        FarmTile::FullGrown => "images/Blueberry_Tile.png"@,
        FarmTile::Failed => "images/Fail_Sprout_Tile.png"@,
    }
}

impl FarmTile {
    /// The path of the sprite to draw for this tile state.
    pub fn get_asset_path(&self) -> (r: &'static str)
        ensures
            r@ == spec_asset_path(*self),
    {
        match self {
            FarmTile::Dirt => "images/Dirt_Tile.png",
            FarmTile::Tilled => "images/Tilled_Tile.png",
            FarmTile::Seeded => "images/Seed_Tile.png",
            FarmTile::SproutedDry => "images/Dry_Sprout_Tile.png",
            FarmTile::SproutedWet => "images/Watered_Sprout_Tile.png",
            FarmTile::FullGrown => "images/Blueberry_Tile.png",
            FarmTile::Failed => "images/Fail_Sprout_Tile.png",
        }
    }
}

/// Some tile in `s` is in state `t`.
pub open spec fn has_tile(s: Seq<FarmTile>, t: FarmTile) -> bool {
    exists|i: int| 0 <= i < s.len() && s[i] == t
}

/// The position of the first tile in state `t`, scanning in tile
/// order, or nothing when no tile is in that state.
pub open spec fn first_index_of(s: Seq<FarmTile>, t: FarmTile) -> Option<int>
    decreases s.len(),
{
    if s.len() == 0 {
        None
    } else if s[0] == t {
        Some(0int)
    } else {
        match first_index_of(s.drop_first(), t) {
            Some(i) => Some(i + 1),
            None => None,
        }
    }
}

/// `first_index_of` finds exactly the first match: a hit is in range,
/// is a match, and has no match before it; a miss means no match at
/// all.
pub proof fn lemma_first_index_of(s: Seq<FarmTile>, t: FarmTile)
    ensures
        match first_index_of(s, t) {
            Some(i) => 0 <= i < s.len() && s[i] == t && (forall|j: int| 0 <= j < i ==> s[j] != t),
            None => !has_tile(s, t),
        },
    decreases s.len(),
{
    if s.len() > 0 && s[0] != t {
        lemma_first_index_of(s.drop_first(), t);
        match first_index_of(s.drop_first(), t) {
            Some(i) => {
                assert(s.drop_first()[i] == s[i + 1]);
                assert forall|j: int| 0 <= j < i + 1 implies s[j] != t by {
                    if j > 0 {
                        assert(s.drop_first()[j - 1] == s[j]);
                    }
                }
            }
            None => {
                assert forall|j: int| 0 <= j < s.len() implies s[j] != t by {
                    if j > 0 {
                        assert(s.drop_first()[j - 1] == s[j]);
                        if s[j] == t {
                            assert(has_tile(s.drop_first(), t));
                        }
                    }
                }
                assert(!has_tile(s, t));
            }
        }
    }
}

/// How many tiles of `s` are in state `t`.
pub open spec fn count_tiles(s: Seq<FarmTile>, t: FarmTile) -> nat
    decreases s.len(),
{
    if s.len() == 0 {
        0
    } else {
        count_tiles(s.drop_first(), t) + (if s[0] == t {
            1nat
        } else {
            0nat
        })
    }
}

/// Rewriting one tile moves the counts by exactly the tile that
/// changed.
pub proof fn lemma_count_tiles_update(s: Seq<FarmTile>, k: int, v: FarmTile, t: FarmTile)
    requires
        0 <= k < s.len(),
    ensures
        count_tiles(s.update(k, v), t) == count_tiles(s, t) - (if s[k] == t {
            1int
        } else {
            0int
        }) + (if v == t {
            1int
        } else {
            0int
        }),
    decreases s.len(),
{
    if k == 0 {
        assert(s.update(0, v).drop_first() =~= s.drop_first());
    } else {
        assert(s.update(k, v).drop_first() =~= s.drop_first().update(k - 1, v));
        lemma_count_tiles_update(s.drop_first(), k - 1, v, t);
    }
}

/// Every tile value is one of the seven growth states.
pub proof fn law_tile_states_total(t: FarmTile)
    ensures
        t is Dirt || t is Tilled || t is Seeded || t is SproutedDry || t is SproutedWet
            || t is FullGrown || t is Failed,
{
}

/// The farm: one growth state per tile.
pub struct FarmState {
    pub tiles: Vec<FarmTile>,
}

impl FarmState {
    /// The grid never changes size: always exactly `FARM_TILES` tiles.
    pub open spec fn wf(&self) -> bool {
        self.tiles@.len() == FARM_TILES
    }

    /// A fresh farm: every tile plain dirt.
    pub fn spawn_farm() -> (s: FarmState)
        ensures
            s.wf(),
            forall|i: int| 0 <= i < FARM_TILES ==> s.tiles@[i] == FarmTile::Dirt,
    {
        let mut tiles: Vec<FarmTile> = Vec::new();
        let mut i: usize = 0;
        while i < FARM_TILES
            invariant
                i <= FARM_TILES,
                tiles@.len() == i,
                forall|j: int| 0 <= j < i ==> tiles@[j] == FarmTile::Dirt,
            decreases FARM_TILES - i,
        {
            tiles.push(FarmTile::Dirt);
            i = i + 1;
        }
        FarmState { tiles }
    }

    /// The first tile in state `value`, in tile order, if any.
    pub fn find(&self, value: FarmTile) -> (r: Option<usize>)
        ensures
            match r {
                Some(i) => first_index_of(self.tiles@, value) == Some(i as int),
                None => first_index_of(self.tiles@, value) is None,
            },
    {
        proof {
            lemma_first_index_of(self.tiles@, value);
        }
        let mut i: usize = 0;
        while i < self.tiles.len()
            invariant
                i <= self.tiles@.len(),
                forall|j: int| 0 <= j < i ==> self.tiles@[j] != value,
            decreases self.tiles@.len() - i,
        {
            if self.tiles[i] == value {
                proof {
                    lemma_first_index_of(self.tiles@, value);
                }
                return Some(i);
            }
            i = i + 1;
        }
        None
    }
}

/// Entering the battle ripens the field: every watered sprout becomes
/// full grown, all at once.
pub fn check_full_grown(farm_state: &mut FarmState)
    requires
        old(farm_state).wf(),
    ensures
        final(farm_state).wf(),
        forall|i: int|
            0 <= i < old(farm_state).tiles@.len() ==> final(farm_state).tiles@[i] == (if old(
                farm_state,
            ).tiles@[i] is SproutedWet {
                FarmTile::FullGrown
            } else {
                old(farm_state).tiles@[i]
            }),
{
    let mut i: usize = 0;
    while i < farm_state.tiles.len()
        invariant
            farm_state.tiles@.len() == old(farm_state).tiles@.len(),
            i <= farm_state.tiles@.len(),
            forall|j: int|
                0 <= j < i ==> farm_state.tiles@[j] == (if old(farm_state).tiles@[j]
                    is SproutedWet {
                    FarmTile::FullGrown
                } else {
                    old(farm_state).tiles@[j]
                }),
            forall|j: int|
                i <= j < farm_state.tiles@.len() ==> farm_state.tiles@[j] == old(
                    farm_state,
                ).tiles@[j],
        decreases farm_state.tiles@.len() - i,
    {
        if farm_state.tiles[i] == FarmTile::SproutedWet {
            farm_state.tiles.set(i, FarmTile::FullGrown);
        }
        i = i + 1;
    }
}

/// One `CheckSeeded` tick: the first seeded tile sprouts dry and the
/// phase repeats; with nothing left to sprout the battle moves on to
/// applying items.
pub fn check_seeded(farm_state: &mut FarmState) -> (next: Option<FarmingBattleState>)
    requires
        old(farm_state).wf(),
    ensures
        final(farm_state).wf(),
        match first_index_of(old(farm_state).tiles@, FarmTile::Seeded) {
            Some(k) => next is None && final(farm_state).tiles@ == old(farm_state).tiles@.update(
                k,
                FarmTile::SproutedDry,
            ),
            None => next == Some(FarmingBattleState::ApplyItems) && *final(farm_state) == *old(
                farm_state,
            ),
        },
{
    match farm_state.find(FarmTile::Seeded) {
        Some(k) => {
            proof {
                lemma_first_index_of(farm_state.tiles@, FarmTile::Seeded);
            }
            farm_state.tiles.set(k, FarmTile::SproutedDry);
            None
        }
        None => Some(FarmingBattleState::ApplyItems),
    }
}

/// One `CheckFailed` tick: the first sprout still dry withers and the
/// phase repeats; with none left the battle moves on to the summary.
pub fn check_after(farm_state: &mut FarmState) -> (next: Option<FarmingBattleState>)
    requires
        old(farm_state).wf(),
    ensures
        final(farm_state).wf(),
        match first_index_of(old(farm_state).tiles@, FarmTile::SproutedDry) {
            Some(k) => next is None && final(farm_state).tiles@ == old(farm_state).tiles@.update(
                k,
                FarmTile::Failed,
            ),
            None => next == Some(FarmingBattleState::ShowSummary) && *final(farm_state) == *old(
                farm_state,
            ),
        },
{
    match farm_state.find(FarmTile::SproutedDry) {
        Some(k) => {
            proof {
                lemma_first_index_of(farm_state.tiles@, FarmTile::SproutedDry);
            }
            farm_state.tiles.set(k, FarmTile::Failed);
            None
        }
        None => Some(FarmingBattleState::ShowSummary),
    }
}

/// The tile state a tool looks for.  The scythe prefers a full-grown
/// tile and falls back to a failed one; see `eligible_index`.
pub open spec fn tool_source(t: ItemType) -> FarmTile {
    match t {
        ItemType::Hoe => FarmTile::Dirt,
        ItemType::WateringCan => FarmTile::SproutedDry,
        ItemType::Scythe => FarmTile::FullGrown,
        ItemType::ParsnipSeed => FarmTile::Tilled,
        ItemType::BlueberrySeed => FarmTile::Tilled,
    }
}

/// The tile state a tool leaves behind.
pub open spec fn tool_result(t: ItemType) -> FarmTile {
    match t {
        ItemType::Hoe => FarmTile::Tilled,
        ItemType::WateringCan => FarmTile::SproutedWet,
        ItemType::Scythe => FarmTile::Dirt,
        ItemType::ParsnipSeed => FarmTile::Seeded,
        ItemType::BlueberrySeed => FarmTile::Seeded,
    }
}

/// Which tile a tool at the front of the queue works on: the first
/// tile in its source state; the scythe harvests the first full-grown
/// tile, or, when none is ripe, clears the first failed one.
pub open spec fn eligible_index(s: Seq<FarmTile>, t: ItemType) -> Option<int> {
    if t is Scythe {
        match first_index_of(s, FarmTile::FullGrown) {
            Some(i) => Some(i),
            None => first_index_of(s, FarmTile::Failed),
        }
    } else {
        first_index_of(s, tool_source(t))
    }
}

/// One `ApplyItems` tick, as a function of the data: with an empty
/// queue nothing changes; otherwise the front tool either works its
/// tile and spends one use (leaving the queue when none remain), or,
/// finding no eligible tile, is dropped without spending a use.
pub open spec fn apply_item_spec(farm: Seq<FarmTile>, items: Seq<ActiveItem>) -> (Seq<FarmTile>, Seq<
    ActiveItem,
>) {
    if items.len() == 0 {
        (farm, items)
    } else {
        let it = items[0];
        match eligible_index(farm, it.item_type) {
            None => (farm, items.drop_first()),
            Some(k) => (
                farm.update(k, tool_result(it.item_type)),
                if it.uses == 1 {
                    items.drop_first()
                } else {
                    items.update(0, ActiveItem { item_type: it.item_type, uses: (it.uses - 1) as i32 })
                },
            ),
        }
    }
}

/// The total work left in the queue: the sum of all remaining uses.
pub open spec fn sum_uses(s: Seq<ActiveItem>) -> int
    decreases s.len(),
{
    if s.len() == 0 {
        0
    } else {
        s[0].uses + sum_uses(s.drop_first())
    }
}

/// A queue of tools that all have at least one use holds at least one
/// unit of work per entry.
pub proof fn lemma_sum_uses_at_least_len(s: Seq<ActiveItem>)
    requires
        forall|i: int| 0 <= i < s.len() ==> #[trigger] s[i].uses >= 1,
    ensures
        sum_uses(s) >= s.len(),
    decreases s.len(),
{
    if s.len() > 0 {
        assert(forall|j: int| 0 <= j < s.drop_first().len() ==> s.drop_first()[j] == s[j + 1]);
        lemma_sum_uses_at_least_len(s.drop_first());
    }
}

/// Rewriting the front tool moves the total work by exactly the
/// difference at the front.
pub proof fn lemma_sum_uses_head(s: Seq<ActiveItem>, a: ActiveItem)
    requires
        s.len() > 0,
    ensures
        sum_uses(s.update(0, a)) == sum_uses(s) - s[0].uses + a.uses,
{
    assert(s.update(0, a).drop_first() =~= s.drop_first());
}

/// One `ApplyItems` tick of the real queue and field.  The front tool
/// works the first tile in its source state and spends one use; a tool
/// with no eligible tile is dropped without spending a use; an empty
/// queue leaves everything as it is.
pub fn apply_active_item(active_items: &mut ActiveItems, farm_state: &mut FarmState)
    requires
        old(farm_state).wf(),
        old(active_items).wf(),
    ensures
        final(farm_state).wf(),
        final(active_items).wf(),
        final(farm_state).tiles@ == apply_item_spec(
            old(farm_state).tiles@,
            old(active_items).items@,
        ).0,
        final(active_items).items@ == apply_item_spec(
            old(farm_state).tiles@,
            old(active_items).items@,
        ).1,
{
    if active_items.items.len() == 0 {
        return;
    }
    let it: ActiveItem = active_items.items[0];
    let found: Option<usize> = match it.item_type {
        ItemType::Hoe => farm_state.find(FarmTile::Dirt),
        ItemType::WateringCan => farm_state.find(FarmTile::SproutedDry),
        ItemType::Scythe => {
            match farm_state.find(FarmTile::FullGrown) {
                Some(k) => Some(k),
                None => farm_state.find(FarmTile::Failed),
            }
        }
        ItemType::ParsnipSeed => farm_state.find(FarmTile::Tilled),
        ItemType::BlueberrySeed => farm_state.find(FarmTile::Tilled),
    };
    match found {
        None => {
            active_items.items.pop_front();
            proof {
                assert(active_items.items@ =~= old(active_items).items@.drop_first());
            }
        }
        Some(k) => {
            proof {
                lemma_first_index_of(farm_state.tiles@, tool_source(it.item_type));
                lemma_first_index_of(farm_state.tiles@, FarmTile::Failed);
            }
            let result = match it.item_type {
                ItemType::Hoe => FarmTile::Tilled,
                ItemType::WateringCan => FarmTile::SproutedWet,
                ItemType::Scythe => FarmTile::Dirt,
                ItemType::ParsnipSeed => FarmTile::Seeded,
                ItemType::BlueberrySeed => FarmTile::Seeded,
            };
            farm_state.tiles.set(k, result);
            if it.uses == 1 {
                active_items.items.pop_front();
                proof {
                    assert(active_items.items@ =~= old(active_items).items@.drop_first());
                }
            } else {
                active_items.items.pop_front();
                active_items.items.push_front(
                    ActiveItem { item_type: it.item_type, uses: it.uses - 1 },
                );
                proof {
                    assert(active_items.items@ =~= old(active_items).items@.update(
                        0,
                        ActiveItem { item_type: it.item_type, uses: (it.uses - 1) as i32 },
                    ));
                }
            }
        }
    }
}

/// The watchdog of the `ApplyItems` phase: once the queue is empty the
/// battle moves on to `CheckFailed`.
pub fn active_items_done(active_items: &ActiveItems) -> (next: Option<FarmingBattleState>)
    ensures
        next == if active_items.items@.len() == 0 {
            Some(FarmingBattleState::CheckFailed)
        } else {
            None::<FarmingBattleState>
        },
{
    if active_items.items.len() == 0 {
        Some(FarmingBattleState::CheckFailed)
    } else {
        None
    }
}

/// Where the battle's sub-state goes in one tick, as a function of the
/// data it looks at.
pub open spec fn battle_next_state(
    s: FarmingBattleState,
    farm: Seq<FarmTile>,
    items: Seq<ActiveItem>,
) -> FarmingBattleState {
    match s {
        FarmingBattleState::Inactive => FarmingBattleState::Inactive,
        FarmingBattleState::CheckSeeded => if has_tile(farm, FarmTile::Seeded) {
            FarmingBattleState::CheckSeeded
        } else {
            FarmingBattleState::ApplyItems
        },
        FarmingBattleState::ApplyItems => if items.len() == 0 {
            FarmingBattleState::CheckFailed
        } else {
            FarmingBattleState::ApplyItems
        },
        FarmingBattleState::CheckFailed => if has_tile(farm, FarmTile::SproutedDry) {
            FarmingBattleState::CheckFailed
        } else {
            FarmingBattleState::ShowSummary
        },
        FarmingBattleState::ShowSummary => FarmingBattleState::ShowSummary,
    }
}

/// What one tick does to the field and the queue in each phase.
pub open spec fn battle_step_spec(
    s: FarmingBattleState,
    farm: Seq<FarmTile>,
    items: Seq<ActiveItem>,
) -> (Seq<FarmTile>, Seq<ActiveItem>) {
    match s {
        FarmingBattleState::CheckSeeded => (
            match first_index_of(farm, FarmTile::Seeded) {
                Some(k) => farm.update(k, FarmTile::SproutedDry),
                None => farm,
            },
            items,
        ),
        FarmingBattleState::ApplyItems => apply_item_spec(farm, items),
        FarmingBattleState::CheckFailed => (
            match first_index_of(farm, FarmTile::SproutedDry) {
                Some(k) => farm.update(k, FarmTile::Failed),
                None => farm,
            },
            items,
        ),
        FarmingBattleState::ShowSummary => (farm, items),
        FarmingBattleState::Inactive => (farm, items),
    }
}

/// One timer tick of the whole battle: runs the active phase once and
/// returns the sub-state the battle is in afterwards.
pub fn battle_tick(
    state: FarmingBattleState,
    farm_state: &mut FarmState,
    active_items: &mut ActiveItems,
) -> (next: FarmingBattleState)
    requires
        old(farm_state).wf(),
        old(active_items).wf(),
    ensures
        final(farm_state).wf(),
        final(active_items).wf(),
        next == battle_next_state(state, old(farm_state).tiles@, old(active_items).items@),
        final(farm_state).tiles@ == battle_step_spec(
            state,
            old(farm_state).tiles@,
            old(active_items).items@,
        ).0,
        final(active_items).items@ == battle_step_spec(
            state,
            old(farm_state).tiles@,
            old(active_items).items@,
        ).1,
{
    proof {
        lemma_first_index_of(farm_state.tiles@, FarmTile::Seeded);
        lemma_first_index_of(farm_state.tiles@, FarmTile::SproutedDry);
    }
    match state {
        FarmingBattleState::Inactive => FarmingBattleState::Inactive,
        FarmingBattleState::CheckSeeded => {
            match check_seeded(farm_state) {
                Some(n) => n,
                None => FarmingBattleState::CheckSeeded,
            }
        }
        FarmingBattleState::ApplyItems => {
            match active_items_done(active_items) {
                Some(n) => n,
                None => {
                    apply_active_item(active_items, farm_state);
                    FarmingBattleState::ApplyItems
                }
            }
        }
        FarmingBattleState::CheckFailed => {
            match check_after(farm_state) {
                Some(n) => n,
                None => FarmingBattleState::CheckFailed,
            }
        }
        FarmingBattleState::ShowSummary => FarmingBattleState::ShowSummary,
    }
}

/// The battle reaches `ShowSummary` exactly from the failure check
/// with no dry sprout left — and the failure check is reached exactly
/// when the queue has emptied.  Together: the battle shows its summary
/// if and only if the queue became empty and no dry sprout remains.
pub proof fn law_reaches_summary(s: FarmingBattleState, farm: Seq<FarmTile>, items: Seq<ActiveItem>)
    ensures
        (battle_next_state(s, farm, items) == FarmingBattleState::ShowSummary) <==> ((s
            == FarmingBattleState::CheckFailed && !has_tile(farm, FarmTile::SproutedDry)) || s
            == FarmingBattleState::ShowSummary),
        (battle_next_state(s, farm, items) == FarmingBattleState::CheckFailed) <==> ((s
            == FarmingBattleState::ApplyItems && items.len() == 0) || (s
            == FarmingBattleState::CheckFailed && has_tile(farm, FarmTile::SproutedDry))),
{
}

/// No battle step changes the number of tiles: the farm keeps exactly
/// `FARM_TILES` entries through every tick (and, being `FarmTile`s,
/// every entry is one of the seven growth states).
pub proof fn law_farm_size_invariant(
    s: FarmingBattleState,
    farm: Seq<FarmTile>,
    items: Seq<ActiveItem>,
)
    requires
        farm.len() == FARM_TILES,
    ensures
        battle_step_spec(s, farm, items).0.len() == FARM_TILES,
{
    lemma_first_index_of(farm, FarmTile::Seeded);
    lemma_first_index_of(farm, FarmTile::SproutedDry);
    if s is ApplyItems && items.len() > 0 {
        lemma_first_index_of(farm, tool_source(items[0].item_type));
        lemma_first_index_of(farm, FarmTile::Failed);
    }
}

/// A scythe applied to a field with a ripe or failed tile clears
/// exactly one of them to dirt — the others stay untouched — and the
/// queue's total remaining uses fall by exactly one.
pub proof fn law_scythe_application(farm: Seq<FarmTile>, items: Seq<ActiveItem>)
    requires
        items.len() > 0,
        items[0].item_type is Scythe,
        items[0].uses >= 1,
        has_tile(farm, FarmTile::FullGrown) || has_tile(farm, FarmTile::Failed),
    ensures
        apply_item_spec(farm, items).0.len() == farm.len(),
        count_tiles(apply_item_spec(farm, items).0, FarmTile::FullGrown) + count_tiles(
            apply_item_spec(farm, items).0,
            FarmTile::Failed,
        ) == count_tiles(farm, FarmTile::FullGrown) + count_tiles(farm, FarmTile::Failed) - 1,
        count_tiles(apply_item_spec(farm, items).0, FarmTile::Dirt) == count_tiles(
            farm,
            FarmTile::Dirt,
        ) + 1,
        exists|k: int|
            0 <= k < farm.len() && (farm[k] == FarmTile::FullGrown || farm[k] == FarmTile::Failed)
                && apply_item_spec(farm, items).0 == farm.update(k, FarmTile::Dirt),
        sum_uses(apply_item_spec(farm, items).1) == sum_uses(items) - 1,
{
    lemma_first_index_of(farm, FarmTile::FullGrown);
    lemma_first_index_of(farm, FarmTile::Failed);
    let k = eligible_index(farm, items[0].item_type)->Some_0;
    assert(farm[k] == FarmTile::FullGrown || farm[k] == FarmTile::Failed);
    lemma_count_tiles_update(farm, k, FarmTile::Dirt, FarmTile::FullGrown);
    lemma_count_tiles_update(farm, k, FarmTile::Dirt, FarmTile::Failed);
    lemma_count_tiles_update(farm, k, FarmTile::Dirt, FarmTile::Dirt);
    if items[0].uses == 1 {
        assert(sum_uses(items) == items[0].uses + sum_uses(items.drop_first()));
    } else {
        lemma_sum_uses_head(
            items,
            ActiveItem { item_type: items[0].item_type, uses: (items[0].uses - 1) as i32 },
        );
    }
}

/// The battle's rank in the phase order; it never rises during a run.
pub open spec fn phase_rank(s: FarmingBattleState) -> int {
    match s {
        FarmingBattleState::Inactive => 4,
        FarmingBattleState::CheckSeeded => 3,
        FarmingBattleState::ApplyItems => 2,
        FarmingBattleState::CheckFailed => 1,
        FarmingBattleState::ShowSummary => 0,
    }
}

/// How much work the current phase still has: tiles left to sprout,
/// uses and entries left in the queue, or sprouts left to wither.
pub open spec fn phase_measure(
    s: FarmingBattleState,
    farm: Seq<FarmTile>,
    items: Seq<ActiveItem>,
) -> int {
    match s {
        FarmingBattleState::CheckSeeded => count_tiles(farm, FarmTile::Seeded) as int,
        FarmingBattleState::ApplyItems => sum_uses(items) + items.len(),
        FarmingBattleState::CheckFailed => count_tiles(farm, FarmTile::SproutedDry) as int,
        _ => 0,
    }
}

/// A whole farming battle, driven tick by tick to its end.  The
/// summary is reached in every run: the queue empties — popping goes
/// on until nothing is left — and every dry sprout has withered, so no
/// `SproutedDry` tile remains.
pub fn run_battle(farm_state: &mut FarmState, active_items: &mut ActiveItems) -> (end:
    FarmingBattleState)
    requires
        old(farm_state).wf(),
        old(active_items).wf(),
    ensures
        final(farm_state).wf(),
        final(active_items).wf(),
        end == FarmingBattleState::ShowSummary,
        final(active_items).items@.len() == 0,
        !has_tile(final(farm_state).tiles@, FarmTile::SproutedDry),
{
    check_full_grown(farm_state);
    let mut state = FarmingBattleState::enter_state();
    while !(state == FarmingBattleState::ShowSummary)
        invariant
            farm_state.wf(),
            active_items.wf(),
            state is CheckSeeded || state is ApplyItems || state is CheckFailed
                || state is ShowSummary,
            (state is CheckFailed || state is ShowSummary) ==> active_items.items@.len() == 0,
            state is ShowSummary ==> !has_tile(farm_state.tiles@, FarmTile::SproutedDry),
        decreases phase_rank(state), phase_measure(state, farm_state.tiles@, active_items.items@),
    {
        let ghost pre_state = state;
        let ghost pre_farm = farm_state.tiles@;
        let ghost pre_items = active_items.items@;
        proof {
            lemma_sum_uses_at_least_len(pre_items);
        }
        state = battle_tick(state, farm_state, active_items);
        proof {
            lemma_sum_uses_at_least_len(active_items.items@);
            lemma_first_index_of(pre_farm, FarmTile::Seeded);
            lemma_first_index_of(pre_farm, FarmTile::SproutedDry);
            if pre_state is CheckSeeded && state is CheckSeeded {
                let k = first_index_of(pre_farm, FarmTile::Seeded)->Some_0;
                lemma_count_tiles_update(pre_farm, k, FarmTile::SproutedDry, FarmTile::Seeded);
            }
            if pre_state is CheckFailed && state is CheckFailed {
                let k = first_index_of(pre_farm, FarmTile::SproutedDry)->Some_0;
                lemma_count_tiles_update(pre_farm, k, FarmTile::Failed, FarmTile::SproutedDry);
            }
            if pre_state is ApplyItems && pre_items.len() > 0 {
                lemma_first_index_of(pre_farm, tool_source(pre_items[0].item_type));
                lemma_first_index_of(pre_farm, FarmTile::Failed);
                if eligible_index(pre_farm, pre_items[0].item_type) is Some && pre_items[0].uses
                    != 1 {
                    lemma_sum_uses_head(
                        pre_items,
                        ActiveItem {
                            item_type: pre_items[0].item_type,
                            uses: (pre_items[0].uses - 1) as i32,
                        },
                    );
                }
            }
        }
    }
    state
}

/// Entering the summary shows the wrap-up dialogue at its node.  The
/// parsed script is handed in by the asset layer.
pub fn enter_summary(statements: Vec<Statement>) -> (d: ShowDialog)
    ensures
        d.start_node@ == "FarmingSummary"@,
        d.statements == statements,
{
    ShowDialog { statements, start_node: "FarmingSummary".to_owned() }
}

/// When the summary dialogue exits at its own node, the game returns
/// to the store; an exit notice from any other node does nothing.
pub fn after_summary(event: &DialogExited) -> (next: Option<GameState>)
    ensures
        next == if event.node@ == "FarmingSummary"@ {
            Some(GameState::StoreSetup)
        } else {
            None::<GameState>
        },
{
    let summary: String = "FarmingSummary".to_owned();
    if event.node == summary {
        Some(GameState::StoreSetup)
    } else {
        None
    }
}

} // verus!
