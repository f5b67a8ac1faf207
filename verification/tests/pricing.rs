use farmstore::game_state::StoreSetupState;
use farmstore::inventory::{sellable_items, CloseButton, ItemType, PriceSetter};

#[test]
fn fresh_panel_starts_at_store_price() {
    let p = PriceSetter::new(20);
    assert_eq!(p.quantity, 1);
    assert_eq!(p.sell_at, 20);
    assert_eq!(p.min_quantity, 1);
    assert_eq!(p.max_quantity, 5);
}

#[test]
fn quantity_changes_floor_the_price() {
    // store price 20: at quantity 3 the price has been floored to 60,
    // one more press raises the floor to 80.
    let mut p = PriceSetter::new(20);
    p.quantity_plus();
    assert_eq!((p.quantity, p.sell_at), (2, 40));
    p.quantity_plus();
    assert_eq!((p.quantity, p.sell_at), (3, 60));
    p.quantity_plus();
    assert_eq!((p.quantity, p.sell_at), (4, 80));
}

#[test]
fn price_minus_floors_at_zero() {
    let mut p = PriceSetter::new(20);
    p.quantity_plus();
    p.quantity_plus();
    p.quantity_plus();
    assert_eq!(p.sell_at, 80);
    p.price_minus();
    assert_eq!(p.sell_at, 30);
    p.price_minus();
    assert_eq!(p.sell_at, 0);
    p.price_minus();
    assert_eq!(p.sell_at, 0);
}

#[test]
fn price_plus_clamps_at_the_cap() {
    let mut p = PriceSetter::new(0);
    for _ in 0..220 {
        p.price_plus();
    }
    assert_eq!(p.sell_at, 10000);
    p.price_plus();
    assert_eq!(p.sell_at, 10000);
}

#[test]
fn quantity_clamps_between_one_and_five() {
    let mut p = PriceSetter::new(20);
    p.quantity_minus();
    assert_eq!(p.quantity, 1);
    for _ in 0..7 {
        p.quantity_plus();
    }
    assert_eq!(p.quantity, 5);
    assert_eq!(p.sell_at, 100);
    p.quantity_minus();
    assert_eq!(p.quantity, 4);
    // going back down never lowers a price already above the floor
    assert_eq!(p.sell_at, 100);
}

#[test]
fn catalog_lists_the_five_wares() {
    let items = sellable_items();
    assert_eq!(items.len(), 5);
    assert_eq!(items[0].name, "Hoe");
    assert!(matches!(items[0].item_type, ItemType::Hoe));
    assert_eq!(items[0].store_price, 100);
    assert_eq!(items[1].name, "Watering Can");
    assert_eq!(items[1].store_price, 50);
    assert_eq!(items[2].name, "Scythe");
    assert_eq!(items[2].store_price, 75);
    assert_eq!(items[3].name, "Parsnip Seeds");
    assert_eq!(items[3].store_price, 20);
    assert_eq!(items[4].name, "Blueberry Seeds");
    assert_eq!(items[4].store_price, 18);
    assert_eq!(items[3].description, "Grows in 3 days, Sells for 100g");
    assert_eq!(items[4].icon_path, "images/Blueberry_Seeds.png");
}

#[test]
fn close_button_returns_to_inventory() {
    assert_eq!(
        CloseButton::interaction_handler(true),
        Some(StoreSetupState::Inventory)
    );
    assert_eq!(CloseButton::interaction_handler(false), None);
}
