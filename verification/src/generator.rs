//! The fixed catalogue of items the game offers.

use vstd::prelude::*;

use crate::base::{Item, ItemView};

verus! {

/// Produces the game's content.
pub struct Generator;

impl Generator {
    /// The catalogue: a plain sword and a health potion.
    pub fn get_items_list() -> (items: Vec<Item>)
        ensures
            items@.len() == 2,
            items@[0]@ == (ItemView {
                id: 0,
                name: "Меч"@,
                description: "Просто меч. Тестовий предмет"@,
                price: 0,
                additional_hp: 0,
                additional_dmg: 1,
                is_usable: false,
            }),
            items@[1]@ == (ItemView {
                id: 1,
                name: "Зілля здоров'я"@,
                description: "При використанні дає +10 ХП"@,
                price: 10,
                additional_hp: 10,
                additional_dmg: 0,
                is_usable: true,
            }),
    {
        let mut items: Vec<Item> = Vec::new();
        items.push(Item::new(0, "Меч", "Просто меч. Тестовий предмет", 0, 0, 1, false));
        items.push(
            Item::new(1, "Зілля здоров'я", "При використанні дає +10 ХП", 10, 10, 0, true),
        );
        items
    }
}

} // verus!
