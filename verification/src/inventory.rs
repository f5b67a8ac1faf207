//! The item catalog and the price-setting panel of the store.
//!
//! A `SellableItem` is read-only reference data: name, kind, icon,
//! description and store price.  The `PriceSetter` holds the quantity and
//! asking price the player dials in before committing a purchase, with
//! the clamping rules of the panel: quantity stays in `[1, 5]`, the
//! asking price moves in steps of 50 inside `[0, 10000]`, and every
//! change of quantity floors the asking price at quantity times store
//! price.

use vstd::prelude::*;
use crate::game_state::StoreSetupState;
use crate::store::{Pedestals, SelectedPedestal};

verus! {

/// The kinds of tool and seed the store sells.
#[derive(Clone, Copy, PartialEq, Eq, Structural, Debug)]
pub enum ItemType {
    Hoe,
    WateringCan,
    Scythe,
    ParsnipSeed,
    BlueberrySeed,
}

/// A purchased tool waiting on a pedestal or in the farming queue,
/// with its remaining uses.  A freshly committed item always has at
/// least one use.
#[derive(Clone, Copy, PartialEq, Eq, Structural, Debug)]
pub struct ActiveItem {
    pub item_type: ItemType,
    pub uses: i32,
}

/// One entry of the store's catalog.
#[derive(Clone, Debug)]
pub struct SellableItem {
    pub name: String,
    pub item_type: ItemType,
    pub icon_path: String,
    pub description: String,
    /// What one unit costs the shopkeeper.
    pub store_price: i32,
}

/// The catalog: five items, in the order the store shows them.
pub fn sellable_items() -> (v: Vec<SellableItem>)
    ensures
        v@.len() == 5,
        v@[0].item_type == ItemType::Hoe && v@[0].store_price == 100,
        v@[0].name@ == "Hoe"@ && v@[0].icon_path@ == "images/Hoe.png"@,
        v@[0].description@ == "Used to till the ground."@,
        v@[1].item_type == ItemType::WateringCan && v@[1].store_price == 50,
        v@[1].name@ == "Watering Can"@ && v@[1].icon_path@ == "images/Watering_Can.png"@,
        v@[1].description@ == "Used for watering plants"@,
        v@[2].item_type == ItemType::Scythe && v@[2].store_price == 75,
        v@[2].name@ == "Scythe"@ && v@[2].icon_path@ == "images/Scythe.png"@,
        v@[2].description@ == "Used for harvesting plants"@,
        v@[3].item_type == ItemType::ParsnipSeed && v@[3].store_price == 20,
        v@[3].name@ == "Parsnip Seeds"@ && v@[3].icon_path@ == "images/Parsnip_Seeds.png"@,
        v@[3].description@ == "Grows in 3 days, Sells for 100g"@,
        v@[4].item_type == ItemType::BlueberrySeed && v@[4].store_price == 18,
        v@[4].name@ == "Blueberry Seeds"@ && v@[4].icon_path@ == "images/Blueberry_Seeds.png"@,
        v@[4].description@ == "Grows in 5 days, Sells for 200g"@,
{
    let mut v: Vec<SellableItem> = Vec::new();
    v.push(SellableItem {
        name: "Hoe".to_owned(),
        item_type: ItemType::Hoe,
        icon_path: "images/Hoe.png".to_owned(),
        description: "Used to till the ground.".to_owned(),
        store_price: 100,
    });
    v.push(SellableItem {
        name: "Watering Can".to_owned(),
        item_type: ItemType::WateringCan,
        icon_path: "images/Watering_Can.png".to_owned(),
        description: "Used for watering plants".to_owned(),
        store_price: 50,
    });
    v.push(SellableItem {
        name: "Scythe".to_owned(),
        item_type: ItemType::Scythe,
        icon_path: "images/Scythe.png".to_owned(),
        description: "Used for harvesting plants".to_owned(),
        store_price: 75,
    });
    v.push(SellableItem {
        name: "Parsnip Seeds".to_owned(),
        item_type: ItemType::ParsnipSeed,
        icon_path: "images/Parsnip_Seeds.png".to_owned(),
        description: "Grows in 3 days, Sells for 100g".to_owned(),
        store_price: 20,
    });
    v.push(SellableItem {
        name: "Blueberry Seeds".to_owned(),
        item_type: ItemType::BlueberrySeed,
        icon_path: "images/Blueberry_Seeds.png".to_owned(),
        description: "Grows in 5 days, Sells for 200g".to_owned(),
        store_price: 18,
    });
    v
}

/// The price-setting panel's state for one catalog item.
#[derive(Clone, Copy, PartialEq, Eq, Structural, Debug)]
pub struct PriceSetter {
    pub max_quantity: i32,
    pub min_quantity: i32,
    pub quantity: i32,
    pub sell_at: i32,
    pub store_price: i32,
}

/// How far one press of the asking price's plus or minus button moves it.
pub const PRICE_INCREMENT: i32 = 50;

/// The largest asking price the panel allows.
pub const PRICE_CAP: i32 = 10000;

impl PriceSetter {
    /// Internal invariant of the panel.  The bound on `store_price`
    /// keeps `5 * store_price` and every asking price the panel can
    /// reach inside `i32`.
    pub open spec fn wf(&self) -> bool {
        &&& self.min_quantity == 1
        &&& self.max_quantity == 5
        &&& 1 <= self.quantity <= 5
        &&& 0 <= self.store_price
        &&& 5 * self.store_price <= i32::MAX - PRICE_INCREMENT
        &&& 0 <= self.sell_at
        &&& (self.sell_at <= PRICE_CAP || self.sell_at <= 5 * self.store_price)
    }

    /// A fresh panel for an item: quantity one, asking price at the
    /// item's store price.
    pub fn new(store_price: i32) -> (p: PriceSetter)
        requires
            0 <= store_price,
            5 * store_price <= i32::MAX - PRICE_INCREMENT,
        ensures
            p.wf(),
            p.quantity == 1,
            p.sell_at == store_price,
            p.store_price == store_price,
    {
        PriceSetter {
            max_quantity: 5,
            min_quantity: 1,
            quantity: 1,
            sell_at: store_price,
            store_price,
        }
    }

    /// One press of the quantity plus button: the quantity rises by one,
    /// clamped at the maximum, and the asking price floors at quantity
    /// times store price.
    pub fn quantity_plus(&mut self)
        requires
            old(self).wf(),
        ensures
            final(self).wf(),
            final(self).quantity == if old(self).quantity < 5 { old(self).quantity + 1 } else { 5int },
            final(self).sell_at == if old(self).sell_at >= final(self).quantity * final(self).store_price {
                old(self).sell_at
            } else {
                (final(self).quantity * final(self).store_price) as i32
            },
            final(self).store_price == old(self).store_price,
            final(self).max_quantity == old(self).max_quantity,
            final(self).min_quantity == old(self).min_quantity,
    {
        if self.quantity < self.max_quantity {
            self.quantity = self.quantity + 1;
        }
        self.floor_sell_at();
    }

    /// One press of the quantity minus button: the quantity falls by
    /// one, clamped at the minimum, and the asking price floors at
    /// quantity times store price.
    pub fn quantity_minus(&mut self)
        requires
            old(self).wf(),
        ensures
            final(self).wf(),
            final(self).quantity == if old(self).quantity > 1 { old(self).quantity - 1 } else { 1int },
            final(self).sell_at == if old(self).sell_at >= final(self).quantity * final(self).store_price {
                old(self).sell_at
            } else {
                (final(self).quantity * final(self).store_price) as i32
            },
            final(self).store_price == old(self).store_price,
            final(self).max_quantity == old(self).max_quantity,
            final(self).min_quantity == old(self).min_quantity,
    {
        if self.quantity > self.min_quantity {
            self.quantity = self.quantity - 1;
        }
        self.floor_sell_at();
    }

    /// Raises the asking price to quantity times store price where it
    /// sits below that floor.
    fn floor_sell_at(&mut self)
        requires
            old(self).wf(),
        ensures
            final(self).wf(),
            final(self).sell_at == if old(self).sell_at >= old(self).quantity * old(self).store_price {
                old(self).sell_at
            } else {
                (old(self).quantity * old(self).store_price) as i32
            },
            final(self).quantity == old(self).quantity,
            final(self).store_price == old(self).store_price,
            final(self).max_quantity == old(self).max_quantity,
            final(self).min_quantity == old(self).min_quantity,
    {
        proof {
            assert(self.quantity * self.store_price <= 5 * self.store_price) by (nonlinear_arith)
                requires
                    1 <= self.quantity <= 5,
                    0 <= self.store_price,
            ;
            assert(0 <= self.quantity * self.store_price) by (nonlinear_arith)
                requires
                    1 <= self.quantity,
                    0 <= self.store_price,
            ;
        }
        let floor: i32 = self.quantity * self.store_price;
        if self.sell_at < floor {
            self.sell_at = floor;
        }
    }

    /// One press of the asking price's plus button: up by the increment,
    /// clamped at the cap.
    pub fn price_plus(&mut self)
        requires
            old(self).wf(),
        ensures
            final(self).wf(),
            final(self).sell_at == if old(self).sell_at + PRICE_INCREMENT > PRICE_CAP {
                PRICE_CAP
            } else {
                (old(self).sell_at + PRICE_INCREMENT) as i32
            },
            final(self).quantity == old(self).quantity,
            final(self).store_price == old(self).store_price,
            final(self).max_quantity == old(self).max_quantity,
            final(self).min_quantity == old(self).min_quantity,
    {
        self.sell_at = self.sell_at + PRICE_INCREMENT;
        if self.sell_at > PRICE_CAP {
            self.sell_at = PRICE_CAP;
        }
    }

    /// One press of the asking price's minus button: down by the
    /// increment, floored at zero.
    pub fn price_minus(&mut self)
        requires
            old(self).wf(),
        ensures
            final(self).wf(),
            final(self).sell_at == if old(self).sell_at - PRICE_INCREMENT < 0 {
                0i32
            } else {
                (old(self).sell_at - PRICE_INCREMENT) as i32
            },
            final(self).quantity == old(self).quantity,
            final(self).store_price == old(self).store_price,
            final(self).max_quantity == old(self).max_quantity,
            final(self).min_quantity == old(self).min_quantity,
    {
        self.sell_at = self.sell_at - PRICE_INCREMENT;
        if self.sell_at < 0 {
            self.sell_at = 0;
        }
    }
}

/// The close button of the price panel.
pub struct CloseButton;

impl CloseButton {
    /// Pressing the close button returns the store to the inventory
    /// without committing anything.
    pub fn interaction_handler(clicked: bool) -> (next: Option<StoreSetupState>)
        ensures
            next == if clicked {
                Some(StoreSetupState::Inventory)
            } else {
                None::<StoreSetupState>
            },
    {
        if clicked {
            Some(StoreSetupState::Inventory)
        } else {
            None
        }
    }
}

/// The button that commits a purchase.
pub struct DoneButton;

impl DoneButton {
    /// Committing the purchase parks the chosen tool on the selected
    /// pedestal, with as many uses as the quantity dialled in, and
    /// returns the store to pedestal selection.  The quantity comes
    /// from the price panel, so it is at least one; the pedestal comes
    /// from the selection handler, so it exists.
    pub fn handle_interaction(
        pedestals: &mut Pedestals,
        selected: SelectedPedestal,
        item_type: ItemType,
        quantity: i32,
    ) -> (next: StoreSetupState)
        requires
            old(pedestals).wf(),
            selected.0 < old(pedestals).slots@.len(),
            1 <= quantity,
        ensures
            final(pedestals).wf(),
            final(pedestals).slots@ == old(pedestals).slots@.update(
                selected.0 as int,
                Some((ActiveItem { item_type, uses: quantity })),
            ),
            next == StoreSetupState::PedestalSelect,
    {
        pedestals.slots.set(selected.0, Some(ActiveItem { item_type, uses: quantity }));
        StoreSetupState::PedestalSelect
    }
}

/// A click on the inventory button of catalog item `clicked`: the store
/// remembers which item the price is being set for and moves to the
/// price panel.
pub fn selection_mouse_handler(clicked: Option<usize>) -> (r: Option<(usize, StoreSetupState)>)
    ensures
        r == match clicked {
            Some(i) => Some((i, StoreSetupState::PriceSelect)),
            None => None::<(usize, StoreSetupState)>,
        },
{
    match clicked {
        Some(i) => Some((i, StoreSetupState::PriceSelect)),
        None => None,
    }
}

} // verus!
