use std::collections::VecDeque;

use farmstore::farm::{
    active_items_done, after_summary, apply_active_item, battle_tick, check_after,
    check_full_grown, check_seeded, enter_summary, run_battle, FarmState, FarmTile,
};
use farmstore::dialog::DialogExited;
use farmstore::game_state::{FarmingBattleState, GameState};
use farmstore::inventory::{ActiveItem, ItemType};
use farmstore::store::ActiveItems;

fn farm_with(tiles: Vec<FarmTile>) -> FarmState {
    assert_eq!(tiles.len(), 25);
    FarmState { tiles }
}

fn queue(items: Vec<ActiveItem>) -> ActiveItems {
    let mut q: VecDeque<ActiveItem> = VecDeque::new();
    for it in items {
        q.push_back(it);
    }
    ActiveItems { items: q }
}

fn mostly_dirt(changes: &[(usize, FarmTile)]) -> FarmState {
    let mut tiles = vec![FarmTile::Dirt; 25];
    for &(i, t) in changes {
        tiles[i] = t;
    }
    farm_with(tiles)
}

#[test]
fn fresh_farm_is_25_dirt_tiles() {
    let farm = FarmState::spawn_farm();
    assert_eq!(farm.tiles.len(), 25);
    assert!(farm.tiles.iter().all(|t| *t == FarmTile::Dirt));
}

#[test]
fn every_tile_state_has_a_sprite() {
    assert_eq!(FarmTile::Dirt.get_asset_path(), "images/Dirt_Tile.png");
    assert_eq!(FarmTile::Tilled.get_asset_path(), "images/Tilled_Tile.png");
    assert_eq!(FarmTile::Seeded.get_asset_path(), "images/Seed_Tile.png");
    assert_eq!(
        FarmTile::SproutedDry.get_asset_path(),
        "images/Dry_Sprout_Tile.png"
    );
    assert_eq!(
        FarmTile::SproutedWet.get_asset_path(),
        "images/Watered_Sprout_Tile.png"
    );
    assert_eq!(
        FarmTile::FullGrown.get_asset_path(),
        "images/Blueberry_Tile.png"
    );
    assert_eq!(
        FarmTile::Failed.get_asset_path(),
        "images/Fail_Sprout_Tile.png"
    );
}

#[test]
fn find_returns_the_first_match_only() {
    let farm = mostly_dirt(&[(4, FarmTile::Seeded), (9, FarmTile::Seeded)]);
    assert_eq!(farm.find(FarmTile::Seeded), Some(4));
    assert_eq!(farm.find(FarmTile::FullGrown), None);
}

#[test]
fn entering_the_battle_ripens_all_watered_sprouts_at_once() {
    let mut farm = mostly_dirt(&[
        (2, FarmTile::SproutedWet),
        (7, FarmTile::SproutedWet),
        (8, FarmTile::SproutedDry),
    ]);
    check_full_grown(&mut farm);
    assert_eq!(farm.tiles[2], FarmTile::FullGrown);
    assert_eq!(farm.tiles[7], FarmTile::FullGrown);
    assert_eq!(farm.tiles[8], FarmTile::SproutedDry);
}

#[test]
fn check_seeded_sprouts_one_tile_per_tick() {
    let mut farm = mostly_dirt(&[(3, FarmTile::Seeded), (11, FarmTile::Seeded)]);
    assert_eq!(check_seeded(&mut farm), None);
    assert_eq!(farm.tiles[3], FarmTile::SproutedDry);
    assert_eq!(farm.tiles[11], FarmTile::Seeded);
    assert_eq!(check_seeded(&mut farm), None);
    assert_eq!(farm.tiles[11], FarmTile::SproutedDry);
    assert_eq!(check_seeded(&mut farm), Some(FarmingBattleState::ApplyItems));
}

#[test]
fn check_after_withers_one_dry_sprout_per_tick() {
    let mut farm = mostly_dirt(&[(5, FarmTile::SproutedDry), (6, FarmTile::SproutedDry)]);
    assert_eq!(check_after(&mut farm), None);
    assert_eq!(farm.tiles[5], FarmTile::Failed);
    assert_eq!(farm.tiles[6], FarmTile::SproutedDry);
    assert_eq!(check_after(&mut farm), None);
    assert_eq!(check_after(&mut farm), Some(FarmingBattleState::ShowSummary));
}

#[test]
fn hoe_tills_the_first_dirt_tile_and_spends_a_use() {
    let mut farm = FarmState::spawn_farm();
    let mut items = queue(vec![ActiveItem {
        item_type: ItemType::Hoe,
        uses: 2,
    }]);
    apply_active_item(&mut items, &mut farm);
    assert_eq!(farm.tiles[0], FarmTile::Tilled);
    assert_eq!(items.items.len(), 1);
    assert_eq!(items.items[0].uses, 1);
    apply_active_item(&mut items, &mut farm);
    assert_eq!(farm.tiles[1], FarmTile::Tilled);
    assert!(items.items.is_empty());
}

#[test]
fn scythe_clears_exactly_one_ripe_or_failed_tile() {
    // a ripe tile is preferred over an earlier failed one
    let mut farm = mostly_dirt(&[(1, FarmTile::Failed), (3, FarmTile::FullGrown)]);
    let mut items = queue(vec![ActiveItem {
        item_type: ItemType::Scythe,
        uses: 2,
    }]);
    apply_active_item(&mut items, &mut farm);
    assert_eq!(farm.tiles[3], FarmTile::Dirt);
    assert_eq!(farm.tiles[1], FarmTile::Failed);
    assert_eq!(items.items[0].uses, 1);
    // with no ripe tile left it falls back to the failed one
    apply_active_item(&mut items, &mut farm);
    assert_eq!(farm.tiles[1], FarmTile::Dirt);
    assert!(items.items.is_empty());
}

#[test]
fn tool_without_eligible_tile_is_dropped_without_spending_uses() {
    let mut farm = FarmState::spawn_farm();
    let mut items = queue(vec![
        ActiveItem {
            item_type: ItemType::WateringCan,
            uses: 3,
        },
        ActiveItem {
            item_type: ItemType::Hoe,
            uses: 1,
        },
    ]);
    // no dry sprout anywhere: the can leaves the queue, uses unspent
    apply_active_item(&mut items, &mut farm);
    assert_eq!(items.items.len(), 1);
    assert!(matches!(items.items[0].item_type, ItemType::Hoe));
    assert!(farm.tiles.iter().all(|t| *t == FarmTile::Dirt));
}

#[test]
fn seeds_go_into_tilled_ground() {
    let mut farm = mostly_dirt(&[(2, FarmTile::Tilled), (4, FarmTile::Tilled)]);
    let mut items = queue(vec![
        ActiveItem {
            item_type: ItemType::ParsnipSeed,
            uses: 1,
        },
        ActiveItem {
            item_type: ItemType::BlueberrySeed,
            uses: 1,
        },
    ]);
    apply_active_item(&mut items, &mut farm);
    assert_eq!(farm.tiles[2], FarmTile::Seeded);
    apply_active_item(&mut items, &mut farm);
    assert_eq!(farm.tiles[4], FarmTile::Seeded);
    assert!(items.items.is_empty());
}

#[test]
fn watering_can_wets_the_first_dry_sprout() {
    let mut farm = mostly_dirt(&[(6, FarmTile::SproutedDry)]);
    let mut items = queue(vec![ActiveItem {
        item_type: ItemType::WateringCan,
        uses: 1,
    }]);
    apply_active_item(&mut items, &mut farm);
    assert_eq!(farm.tiles[6], FarmTile::SproutedWet);
    assert!(items.items.is_empty());
}

#[test]
fn empty_queue_moves_the_battle_to_the_failure_check() {
    let items = queue(vec![]);
    assert_eq!(
        active_items_done(&items),
        Some(FarmingBattleState::CheckFailed)
    );
    let items = queue(vec![ActiveItem {
        item_type: ItemType::Hoe,
        uses: 1,
    }]);
    assert_eq!(active_items_done(&items), None);
}

#[test]
fn battle_tick_walks_the_phases() {
    let mut farm = FarmState::spawn_farm();
    let mut items = queue(vec![ActiveItem {
        item_type: ItemType::Hoe,
        uses: 1,
    }]);
    // nothing seeded: straight on to applying items
    let s = battle_tick(FarmingBattleState::CheckSeeded, &mut farm, &mut items);
    assert_eq!(s, FarmingBattleState::ApplyItems);
    // one use of the hoe
    let s = battle_tick(s, &mut farm, &mut items);
    assert_eq!(s, FarmingBattleState::ApplyItems);
    assert_eq!(farm.tiles[0], FarmTile::Tilled);
    // queue now empty: on to the failure check
    let s = battle_tick(s, &mut farm, &mut items);
    assert_eq!(s, FarmingBattleState::CheckFailed);
    // no dry sprout: the summary
    let s = battle_tick(s, &mut farm, &mut items);
    assert_eq!(s, FarmingBattleState::ShowSummary);
    let s = battle_tick(s, &mut farm, &mut items);
    assert_eq!(s, FarmingBattleState::ShowSummary);
}

#[test]
fn a_full_battle_reaches_the_summary_with_an_empty_queue() {
    let mut farm = FarmState::spawn_farm();
    let mut items = queue(vec![
        ActiveItem {
            item_type: ItemType::Hoe,
            uses: 2,
        },
        ActiveItem {
            item_type: ItemType::ParsnipSeed,
            uses: 2,
        },
    ]);
    let end = run_battle(&mut farm, &mut items);
    assert_eq!(end, FarmingBattleState::ShowSummary);
    assert!(items.items.is_empty());
    assert_eq!(farm.tiles[0], FarmTile::Seeded);
    assert_eq!(farm.tiles[1], FarmTile::Seeded);
    assert!(farm.tiles[2..].iter().all(|t| *t == FarmTile::Dirt));
}

#[test]
fn crops_ripen_or_wither_across_battles() {
    // first season: till and sow two tiles
    let mut farm = FarmState::spawn_farm();
    let mut items = queue(vec![
        ActiveItem {
            item_type: ItemType::Hoe,
            uses: 2,
        },
        ActiveItem {
            item_type: ItemType::BlueberrySeed,
            uses: 2,
        },
    ]);
    run_battle(&mut farm, &mut items);
    // second season: the seeds sprout; only the first gets water
    let mut items = queue(vec![ActiveItem {
        item_type: ItemType::WateringCan,
        uses: 1,
    }]);
    run_battle(&mut farm, &mut items);
    assert_eq!(farm.tiles[0], FarmTile::SproutedWet);
    assert_eq!(farm.tiles[1], FarmTile::Failed);
    // third season: the watered sprout has ripened; harvest it
    let mut items = queue(vec![ActiveItem {
        item_type: ItemType::Scythe,
        uses: 1,
    }]);
    run_battle(&mut farm, &mut items);
    assert_eq!(farm.tiles[0], FarmTile::Dirt);
    assert_eq!(farm.tiles[1], FarmTile::Failed);
}

#[test]
fn summary_dialogue_round_trip() {
    let d = enter_summary(Vec::new());
    assert_eq!(d.start_node, "FarmingSummary");
    assert_eq!(
        after_summary(&DialogExited {
            node: "FarmingSummary".to_owned()
        }),
        Some(GameState::StoreSetup)
    );
    assert_eq!(
        after_summary(&DialogExited {
            node: "Welcome".to_owned()
        }),
        None
    );
}
