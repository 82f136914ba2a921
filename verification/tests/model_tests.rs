use dungeon::base::{Class, Item, Player};
use dungeon::generator::Generator;

#[test]
fn item_is_shown_with_all_fields() {
    let item = Item::new(3, "Щит", "Дерев'яний", -2, 5, -1, true);
    assert_eq!(
        item.to_string(),
        "Щит [3] - Дерев'яний\nHP: +5\nDMG: +-1\nМожна використати: true\n--- $-2"
    );
}

#[test]
fn catalogue_has_sword_and_potion() {
    let items = Generator::get_items_list();
    assert_eq!(items.len(), 2);
    assert_eq!(
        items[0].to_string(),
        "Меч [0] - Просто меч. Тестовий предмет\nHP: +0\nDMG: +1\nМожна використати: false\n--- $0"
    );
    assert_eq!(
        items[1].to_string(),
        "Зілля здоров'я [1] - При використанні дає +10 ХП\nHP: +10\nDMG: +0\nМожна використати: true\n--- $10"
    );
}

#[test]
fn new_player_has_defaults() {
    let p = Player::new("bob".to_string(), "h".to_string(), "1.2.3.4:5".to_string());
    assert_eq!(p.login, "bob");
    assert_eq!(p.password_hash, "h");
    assert_eq!(p.data, "1.2.3.4:5");
    assert_eq!(p.class, Class::Human);
    assert_eq!(p.balance, 0);
    assert_eq!(p.hp, 100);
    assert_eq!(p.damage, 10);
    assert!(p.inventory.is_empty());
    let d = Player::default();
    assert_eq!(d.login, "");
    assert_eq!(d.hp, 100);
}

#[test]
fn class_debug_text() {
    assert_eq!(Class::Human.to_debug_string(), "Human");
    assert_eq!(Class::Warrior(3).to_debug_string(), "Warrior(3)");
    assert_eq!(Class::DungeonMaster(0).to_debug_string(), "DungeonMaster(0)");
    assert_eq!(Class::Alien(255).to_debug_string(), "Alien(255)");
}

#[test]
fn player_without_items_is_shown() {
    let p = Player::new("bob".to_string(), "h".to_string(), String::new());
    assert_eq!(
        p.to_string(),
        "bob (Human)\nHP: 100\nDMG: 10\nBalance: $0\n Inventory: \"\""
    );
}

#[test]
fn player_with_items_is_shown() {
    let mut p = Player::new("alice".to_string(), "h".to_string(), String::new());
    p.class = Class::Warrior(2);
    p.balance = -7;
    p.inventory = Generator::get_items_list();
    let inv = format!("0) {}1) {}", p.inventory[0].to_string(), p.inventory[1].to_string());
    let expected = format!(
        "alice (Warrior(2))\nHP: 100\nDMG: 10\nBalance: $-7\n Inventory: {:#?}",
        inv
    );
    assert_eq!(p.to_string(), expected);
    assert!(p.to_string().contains("\\nHP: +0"));
    assert!(p.to_string().contains("здоров'я"));
}

#[test]
fn duplicate_keeps_content() {
    let mut p = Player::new("alice".to_string(), "h".to_string(), "d".to_string());
    p.inventory = Generator::get_items_list();
    let q = p.duplicate();
    assert_eq!(q.to_string(), p.to_string());
    assert_eq!(q.password_hash, p.password_hash);
    assert_eq!(q.data, p.data);
}
