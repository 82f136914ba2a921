//! The game's data model: players, their class and their items, and how
//! each is shown to a person.

use vstd::prelude::*;
use vstd::string::*;

use crate::text::{
    bool_text, bool_to_text, i64_to_decimal, int_decimal, lemma_bool_text_injective,
    lemma_cancel_around, lemma_int_decimal_injective, lemma_nat_decimal_injective, nat_decimal,
    u64_to_decimal,
};

verus! {

/// A player's class.
#[derive(Debug, Clone, Copy, PartialEq, Eq, Structural)]
pub enum Class {
    Human,
    /// Class with additional DMG
    Warrior(u8),
    /// Class with additional HP
    DungeonMaster(u8),
    /// Class with additional HP & DMG
    Alien(u8),
}

/// How `{:?}` writes a class: the variant's name, then its level in brackets.
pub open spec fn class_text(c: Class) -> Seq<char> {
    match c {
        Class::Human => "Human"@,
        Class::Warrior(n) => "Warrior("@ + nat_decimal(n as nat) + ")"@,
        Class::DungeonMaster(n) => "DungeonMaster("@ + nat_decimal(n as nat) + ")"@,
        Class::Alien(n) => "Alien("@ + nat_decimal(n as nat) + ")"@,
    }
}

impl Class {
    /// The class as `{:?}` writes it.
    pub fn to_debug_string(&self) -> (s: String)
        ensures
            s@ == class_text(*self),
    {
        match self {
            Class::Human => String::from_str("Human"),
            Class::Warrior(n) => {
                let mut s = String::from_str("Warrior(");
                s.append(u64_to_decimal(*n as u64).as_str());
                s.append(")");
                s
            },
            Class::DungeonMaster(n) => {
                let mut s = String::from_str("DungeonMaster(");
                s.append(u64_to_decimal(*n as u64).as_str());
                s.append(")");
                s
            },
            Class::Alien(n) => {
                let mut s = String::from_str("Alien(");
                s.append(u64_to_decimal(*n as u64).as_str());
                s.append(")");
                s
            },
        }
    }
}

/// Different classes are written differently: the text names the variant
/// and, for the classes that have one, the level.
pub proof fn lemma_class_text_injective(a: Class, b: Class)
    requires
        class_text(a) == class_text(b),
    ensures
        a == b,
{
    reveal_strlit("Human");
    reveal_strlit("Warrior(");
    reveal_strlit("DungeonMaster(");
    reveal_strlit("Alien(");
    reveal_strlit(")");
    let ta = class_text(a);
    let tb = class_text(b);
    assert(ta[0] == tb[0]);
    match (a, b) {
        (Class::Warrior(n), Class::Warrior(m)) => {
            lemma_cancel_around("Warrior("@, nat_decimal(n as nat), nat_decimal(m as nat), ")"@);
            lemma_nat_decimal_injective(n as nat, m as nat);
        },
        (Class::DungeonMaster(n), Class::DungeonMaster(m)) => {
            lemma_cancel_around(
                "DungeonMaster("@,
                nat_decimal(n as nat),
                nat_decimal(m as nat),
                ")"@,
            );
            lemma_nat_decimal_injective(n as nat, m as nat);
        },
        (Class::Alien(n), Class::Alien(m)) => {
            lemma_cancel_around("Alien("@, nat_decimal(n as nat), nat_decimal(m as nat), ")"@);
            lemma_nat_decimal_injective(n as nat, m as nat);
        },
        _ => {},
    }
}

/// Each class is written as `{:?}` writes it: the variant's name and, for the
/// classes with a level, the level in decimal in brackets.
pub proof fn lemma_class_text_forms(n: u8)
    ensures
        class_text(Class::Human) == "Human"@,
        class_text(Class::Warrior(n)) == "Warrior("@ + nat_decimal(n as nat) + ")"@,
        class_text(Class::DungeonMaster(n)) == "DungeonMaster("@ + nat_decimal(n as nat) + ")"@,
        class_text(Class::Alien(n)) == "Alien("@ + nat_decimal(n as nat) + ")"@,
{
}

/// The text of an item up to its health bonus.
spec fn item_text_to_hp(v: ItemView) -> Seq<char> {
    v.name + " ["@ + nat_decimal(v.id as nat) + "] - "@ + v.description + "\nHP: +"@
}

/// The text of an item after its damage bonus.
spec fn item_text_after_dmg(v: ItemView) -> Seq<char> {
    "\nМожна використати: "@ + bool_text(v.is_usable) + "\n--- $"@ + int_decimal(v.price as int)
}

/// Two items that differ at most in their health bonus are shown alike only
/// if the bonus is the same: the bonus is written with its sign.
pub proof fn lemma_item_text_shows_hp(a: ItemView, b: ItemView)
    requires
        a == (ItemView { additional_hp: a.additional_hp, ..b }),
        item_text(a) == item_text(b),
    ensures
        a.additional_hp == b.additional_hp,
{
    let after = "\nDMG: +"@ + int_decimal(a.additional_dmg as int) + item_text_after_dmg(a);
    assert(item_text(a) =~= item_text_to_hp(a) + int_decimal(a.additional_hp as int) + after);
    assert(item_text(b) =~= item_text_to_hp(a) + int_decimal(b.additional_hp as int) + after);
    lemma_cancel_around(
        item_text_to_hp(a),
        int_decimal(a.additional_hp as int),
        int_decimal(b.additional_hp as int),
        after,
    );
    lemma_int_decimal_injective(a.additional_hp as int, b.additional_hp as int);
}

/// Two items that differ at most in their damage bonus are shown alike only
/// if the bonus is the same.
pub proof fn lemma_item_text_shows_dmg(a: ItemView, b: ItemView)
    requires
        a == (ItemView { additional_dmg: a.additional_dmg, ..b }),
        item_text(a) == item_text(b),
    ensures
        a.additional_dmg == b.additional_dmg,
{
    let before = item_text_to_hp(a) + int_decimal(a.additional_hp as int) + "\nDMG: +"@;
    let after = item_text_after_dmg(a);
    assert(item_text(a) =~= before + int_decimal(a.additional_dmg as int) + after);
    assert(item_text(b) =~= before + int_decimal(b.additional_dmg as int) + after);
    lemma_cancel_around(
        before,
        int_decimal(a.additional_dmg as int),
        int_decimal(b.additional_dmg as int),
        after,
    );
    lemma_int_decimal_injective(a.additional_dmg as int, b.additional_dmg as int);
}

/// Two items that differ at most in their price are shown alike only if the
/// price is the same.
pub proof fn lemma_item_text_shows_price(a: ItemView, b: ItemView)
    requires
        a == (ItemView { price: a.price, ..b }),
        item_text(a) == item_text(b),
    ensures
        a.price == b.price,
{
    let before = item_text_to_hp(a) + int_decimal(a.additional_hp as int) + "\nDMG: +"@
        + int_decimal(a.additional_dmg as int) + "\nМожна використати: "@ + bool_text(a.is_usable)
        + "\n--- $"@;
    let after = Seq::<char>::empty();
    assert(item_text(a) =~= before + int_decimal(a.price as int) + after);
    assert(item_text(b) =~= before + int_decimal(b.price as int) + after);
    lemma_cancel_around(before, int_decimal(a.price as int), int_decimal(b.price as int), after);
    lemma_int_decimal_injective(a.price as int, b.price as int);
}

/// Two items that differ at most in whether they can be used are shown alike
/// only if that is the same.
pub proof fn lemma_item_text_shows_usable(a: ItemView, b: ItemView)
    requires
        a == (ItemView { is_usable: a.is_usable, ..b }),
        item_text(a) == item_text(b),
    ensures
        a.is_usable == b.is_usable,
{
    let before = item_text_to_hp(a) + int_decimal(a.additional_hp as int) + "\nDMG: +"@
        + int_decimal(a.additional_dmg as int) + "\nМожна використати: "@;
    let after = "\n--- $"@ + int_decimal(a.price as int);
    assert(item_text(a) =~= before + bool_text(a.is_usable) + after);
    assert(item_text(b) =~= before + bool_text(b.is_usable) + after);
    lemma_cancel_around(before, bool_text(a.is_usable), bool_text(b.is_usable), after);
    lemma_bool_text_injective(a.is_usable, b.is_usable);
}

/// Two items that differ at most in their id are shown alike only if the id
/// is the same.
pub proof fn lemma_item_text_shows_id(a: ItemView, b: ItemView)
    requires
        a == (ItemView { id: a.id, ..b }),
        item_text(a) == item_text(b),
    ensures
        a.id == b.id,
{
    let before = a.name + " ["@;
    let after = "] - "@ + a.description + "\nHP: +"@ + int_decimal(a.additional_hp as int)
        + "\nDMG: +"@ + int_decimal(a.additional_dmg as int) + item_text_after_dmg(a);
    assert(item_text(a) =~= before + nat_decimal(a.id as nat) + after);
    assert(item_text(b) =~= before + nat_decimal(b.id as nat) + after);
    lemma_cancel_around(before, nat_decimal(a.id as nat), nat_decimal(b.id as nat), after);
    lemma_nat_decimal_injective(a.id as nat, b.id as nat);
}

/// The inventory listing numbers each entry by its position: the listing of
/// `items` followed by `x` is the listing of `items`, then the position of
/// `x` in decimal, `) ` and the text of `x`.
pub proof fn lemma_inventory_entry_numbered_by_position(items: Seq<ItemView>, x: ItemView)
    ensures
        inventory_text(items.push(x)) == inventory_text(items) + nat_decimal(items.len()) + ") "@
            + item_text(x),
{
    assert(items.push(x).drop_last() =~= items);
}

/// An inventory of one item lists it as entry `0`.
pub proof fn lemma_inventory_first_entry(x: ItemView)
    ensures
        inventory_text(seq![x]) == "0) "@ + item_text(x),
{
    reveal_strlit("0) ");
    reveal_strlit(") ");
    assert(seq![x].drop_last() =~= Seq::<ItemView>::empty());
    assert(nat_decimal(0) =~= seq!['0']);
    assert(inventory_text(Seq::<ItemView>::empty()) == Seq::<char>::empty());
    assert("0) "@ =~= seq!['0'] + ") "@);
    assert(inventory_text(seq![x]) == Seq::<char>::empty() + nat_decimal(0) + ") "@ + item_text(x));
    assert(inventory_text(seq![x]) =~= "0) "@ + item_text(x));
}

/// An item's content, as contracts speak of it.
pub struct ItemView {
    pub id: u64,
    pub name: Seq<char>,
    pub description: Seq<char>,
    pub price: i64,
    pub additional_hp: i32,
    pub additional_dmg: i32,
    pub is_usable: bool,
}

/// Something a player can own.
#[derive(Debug)]
pub struct Item {
    id: u64,
    name: String,
    description: String,
    price: i64,
    additional_hp: i32,
    additional_dmg: i32,
    is_usable: bool,
}

impl View for Item {
    type V = ItemView;

    closed spec fn view(&self) -> ItemView {
        ItemView {
            id: self.id,
            name: self.name@,
            description: self.description@,
            price: self.price,
            additional_hp: self.additional_hp,
            additional_dmg: self.additional_dmg,
            is_usable: self.is_usable,
        }
    }
}

/// How an item is shown: name and id, description, bonuses, whether it can be
/// used, and price.
pub open spec fn item_text(v: ItemView) -> Seq<char> {
    v.name + " ["@ + nat_decimal(v.id as nat) + "] - "@ + v.description + "\nHP: +"@
        + int_decimal(v.additional_hp as int) + "\nDMG: +"@ + int_decimal(v.additional_dmg as int)
        + "\nМожна використати: "@ + bool_text(v.is_usable) + "\n--- $"@ + int_decimal(
        v.price as int,
    )
}

impl Item {
    pub fn new(
        id: u64,
        name: &str,
        desc: &str,
        price: i64,
        add_hp: i32,
        add_dmg: i32,
        is_usable: bool,
    ) -> (item: Self)
        ensures
            item@ == (ItemView {
                id,
                name: name@,
                description: desc@,
                price,
                additional_hp: add_hp,
                additional_dmg: add_dmg,
                is_usable,
            }),
    {
        Item {
            id,
            name: String::from_str(name),
            description: String::from_str(desc),
            price,
            additional_hp: add_hp,
            additional_dmg: add_dmg,
            is_usable,
        }
    }

    pub fn id(&self) -> (r: u64)
        ensures
            r == self@.id,
    {
        self.id
    }

    pub fn name(&self) -> (r: &String)
        ensures
            r@ == self@.name,
    {
        &self.name
    }

    pub fn description(&self) -> (r: &String)
        ensures
            r@ == self@.description,
    {
        &self.description
    }

    pub fn price(&self) -> (r: i64)
        ensures
            r == self@.price,
    {
        self.price
    }

    pub fn additional_hp(&self) -> (r: i32)
        ensures
            r == self@.additional_hp,
    {
        self.additional_hp
    }

    pub fn additional_dmg(&self) -> (r: i32)
        ensures
            r == self@.additional_dmg,
    {
        self.additional_dmg
    }

    pub fn is_usable(&self) -> (r: bool)
        ensures
            r == self@.is_usable,
    {
        self.is_usable
    }

    /// A copy of the item with the same content.
    pub fn duplicate(&self) -> (r: Self)
        ensures
            r@ == self@,
    {
        Item {
            id: self.id,
            name: self.name.clone(),
            description: self.description.clone(),
            price: self.price,
            additional_hp: self.additional_hp,
            additional_dmg: self.additional_dmg,
            is_usable: self.is_usable,
        }
    }

    /// The item as a person reads it.
    pub fn to_string(&self) -> (s: String)
        ensures
            s@ == item_text(self@),
    {
        let mut s = self.name.clone();
        s.append(" [");
        s.append(u64_to_decimal(self.id).as_str());
        s.append("] - ");
        s.append(self.description.as_str());
        s.append("\nHP: +");
        s.append(i64_to_decimal(self.additional_hp as i64).as_str());
        s.append("\nDMG: +");
        s.append(i64_to_decimal(self.additional_dmg as i64).as_str());
        s.append("\nМожна використати: ");
        s.append(bool_to_text(self.is_usable).as_str());
        s.append("\n--- $");
        s.append(i64_to_decimal(self.price).as_str());
        s
    }
}

/// A player of the game.
#[derive(Debug)]
pub struct Player {
    pub login: String,
    pub password_hash: String,
    pub class: Class,
    pub balance: i64,
    pub hp: i64,
    pub damage: u32,
    pub inventory: Vec<Item>,
    pub data: String,
}

/// The contents of an inventory.
pub open spec fn item_views(items: Seq<Item>) -> Seq<ItemView> {
    items.map_values(|it: Item| it@)
}

/// The inventory listing: each item preceded by its position and `) `.
pub open spec fn inventory_text(items: Seq<ItemView>) -> Seq<char>
    decreases items.len(),
{
    if items.len() == 0 {
        Seq::empty()
    } else {
        inventory_text(items.drop_last()) + nat_decimal((items.len() - 1) as nat) + ") "@
            + item_text(items.last())
    }
}

/// The name of what `{:#?}` writes for a text: the text in double quotes,
/// with the characters that need it escaped.
pub uninterp spec fn debug_text(s: Seq<char>) -> Seq<char>;

/// Calls std's `Debug` for `str` through `format!("{:#?}", ..)`. Its
/// contract names the result (`debug_text` of the text) and says nothing of
/// its characters: the escaping rules rest on Unicode tables.
#[verifier::external_body]
fn debug_quote(s: &str) -> (r: String)
    ensures
        r@ == debug_text(s@),
{
    format!("{:#?}", s)
}

/// How a player is shown: login and class, health, damage, balance and the
/// inventory listing.
pub open spec fn player_text(p: Player) -> Seq<char> {
    p.login@ + " ("@ + class_text(p.class) + ")\nHP: "@ + int_decimal(p.hp as int)
        + "\nDMG: "@ + nat_decimal(p.damage as nat) + "\nBalance: $"@ + int_decimal(
        p.balance as int,
    ) + "\n Inventory: "@ + debug_text(inventory_text(item_views(p.inventory@)))
}

/// `a` and `b` hold the same content.
pub open spec fn same_player(a: Player, b: Player) -> bool {
    &&& a.login@ == b.login@
    &&& a.password_hash@ == b.password_hash@
    &&& a.class == b.class
    &&& a.balance == b.balance
    &&& a.hp == b.hp
    &&& a.damage == b.damage
    &&& item_views(a.inventory@) == item_views(b.inventory@)
    &&& a.data@ == b.data@
}

/// The end of a player's text: the balance and the inventory.
spec fn player_text_tail(p: Player) -> Seq<char> {
    "\nBalance: $"@ + int_decimal(p.balance as int) + "\n Inventory: "@ + debug_text(
        inventory_text(item_views(p.inventory@)),
    )
}

/// Two players that differ at most in their class are shown alike only if
/// the class is the same: the class is written with its level.
pub proof fn lemma_player_text_shows_class(a: Player, b: Player)
    requires
        a.login@ == b.login@,
        a.hp == b.hp,
        a.damage == b.damage,
        a.balance == b.balance,
        item_views(a.inventory@) == item_views(b.inventory@),
        player_text(a) == player_text(b),
    ensures
        a.class == b.class,
{
    let before = a.login@ + " ("@;
    let after = ")\nHP: "@ + int_decimal(a.hp as int) + "\nDMG: "@ + nat_decimal(a.damage as nat)
        + player_text_tail(a);
    assert(player_text(a) =~= before + class_text(a.class) + after);
    assert(player_text(b) =~= before + class_text(b.class) + after);
    lemma_cancel_around(before, class_text(a.class), class_text(b.class), after);
    lemma_class_text_injective(a.class, b.class);
}

/// Two players that differ at most in their health are shown alike only if
/// the health is the same.
pub proof fn lemma_player_text_shows_hp(a: Player, b: Player)
    requires
        a.login@ == b.login@,
        a.class == b.class,
        a.damage == b.damage,
        a.balance == b.balance,
        item_views(a.inventory@) == item_views(b.inventory@),
        player_text(a) == player_text(b),
    ensures
        a.hp == b.hp,
{
    let before = a.login@ + " ("@ + class_text(a.class) + ")\nHP: "@;
    let after = "\nDMG: "@ + nat_decimal(a.damage as nat) + player_text_tail(a);
    assert(player_text(a) =~= before + int_decimal(a.hp as int) + after);
    assert(player_text(b) =~= before + int_decimal(b.hp as int) + after);
    lemma_cancel_around(before, int_decimal(a.hp as int), int_decimal(b.hp as int), after);
    lemma_int_decimal_injective(a.hp as int, b.hp as int);
}

/// Two players that differ at most in their damage are shown alike only if
/// the damage is the same.
pub proof fn lemma_player_text_shows_damage(a: Player, b: Player)
    requires
        a.login@ == b.login@,
        a.class == b.class,
        a.hp == b.hp,
        a.balance == b.balance,
        item_views(a.inventory@) == item_views(b.inventory@),
        player_text(a) == player_text(b),
    ensures
        a.damage == b.damage,
{
    let before = a.login@ + " ("@ + class_text(a.class) + ")\nHP: "@ + int_decimal(a.hp as int)
        + "\nDMG: "@;
    let after = player_text_tail(a);
    assert(player_text(a) =~= before + nat_decimal(a.damage as nat) + after);
    assert(player_text(b) =~= before + nat_decimal(b.damage as nat) + after);
    lemma_cancel_around(before, nat_decimal(a.damage as nat), nat_decimal(b.damage as nat), after);
    lemma_nat_decimal_injective(a.damage as nat, b.damage as nat);
}

/// Two players that differ at most in their balance are shown alike only if
/// the balance is the same: it is written with its sign.
pub proof fn lemma_player_text_shows_balance(a: Player, b: Player)
    requires
        a.login@ == b.login@,
        a.class == b.class,
        a.hp == b.hp,
        a.damage == b.damage,
        item_views(a.inventory@) == item_views(b.inventory@),
        player_text(a) == player_text(b),
    ensures
        a.balance == b.balance,
{
    let before = a.login@ + " ("@ + class_text(a.class) + ")\nHP: "@ + int_decimal(a.hp as int)
        + "\nDMG: "@ + nat_decimal(a.damage as nat) + "\nBalance: $"@;
    let after = "\n Inventory: "@ + debug_text(inventory_text(item_views(a.inventory@)));
    assert(player_text(a) =~= before + int_decimal(a.balance as int) + after);
    assert(player_text(b) =~= before + int_decimal(b.balance as int) + after);
    lemma_cancel_around(before, int_decimal(a.balance as int), int_decimal(b.balance as int), after);
    lemma_int_decimal_injective(a.balance as int, b.balance as int);
}

/// Two items that differ at most in their name are shown alike only if the
/// name is the same.
pub proof fn lemma_item_text_shows_name(a: ItemView, b: ItemView)
    requires
        a == (ItemView { name: a.name, ..b }),
        item_text(a) == item_text(b),
    ensures
        a.name == b.name,
{
    let after = " ["@ + nat_decimal(a.id as nat) + "] - "@ + a.description + "\nHP: +"@
        + int_decimal(a.additional_hp as int) + "\nDMG: +"@ + int_decimal(a.additional_dmg as int)
        + item_text_after_dmg(a);
    let before = Seq::<char>::empty();
    assert(item_text(a) =~= before + a.name + after);
    assert(item_text(b) =~= before + b.name + after);
    lemma_cancel_around(before, a.name, b.name, after);
}

/// Two items that differ at most in their description are shown alike only
/// if the description is the same.
pub proof fn lemma_item_text_shows_description(a: ItemView, b: ItemView)
    requires
        a == (ItemView { description: a.description, ..b }),
        item_text(a) == item_text(b),
    ensures
        a.description == b.description,
{
    let before = a.name + " ["@ + nat_decimal(a.id as nat) + "] - "@;
    let after = "\nHP: +"@ + int_decimal(a.additional_hp as int) + "\nDMG: +"@ + int_decimal(
        a.additional_dmg as int,
    ) + item_text_after_dmg(a);
    assert(item_text(a) =~= before + a.description + after);
    assert(item_text(b) =~= before + b.description + after);
    lemma_cancel_around(before, a.description, b.description, after);
}

/// Two players that differ at most in their login are shown alike only if
/// the login is the same.
pub proof fn lemma_player_text_shows_login(a: Player, b: Player)
    requires
        a.class == b.class,
        a.hp == b.hp,
        a.damage == b.damage,
        a.balance == b.balance,
        item_views(a.inventory@) == item_views(b.inventory@),
        player_text(a) == player_text(b),
    ensures
        a.login@ == b.login@,
{
    let before = Seq::<char>::empty();
    let after = " ("@ + class_text(a.class) + ")\nHP: "@ + int_decimal(a.hp as int) + "\nDMG: "@
        + nat_decimal(a.damage as nat) + player_text_tail(a);
    assert(player_text(a) =~= before + a.login@ + after);
    assert(player_text(b) =~= before + b.login@ + after);
    lemma_cancel_around(before, a.login@, b.login@, after);
}

/// The state of a fresh player apart from the three texts it is given.
pub open spec fn is_fresh(p: Player) -> bool {
    &&& p.class == Class::Human
    &&& p.balance == 0
    &&& p.hp == 100
    &&& p.damage == 10
    &&& p.inventory@.len() == 0
}

/// A fresh player is a human with 100 health, 10 damage, no money and no
/// items.
pub proof fn lemma_fresh_player(p: Player)
    requires
        is_fresh(p),
    ensures
        p.class == Class::Human,
        p.hp == 100,
        p.damage == 10,
        p.balance == 0,
        p.inventory@.len() == 0,
{
}

impl Default for Player {
    fn default() -> (p: Self)
        ensures
            is_fresh(p),
            p.login@ == Seq::<char>::empty(),
            p.password_hash@ == Seq::<char>::empty(),
            p.data@ == Seq::<char>::empty(),
    {
        Player {
            login: String::new(),
            password_hash: String::new(),
            class: Class::Human,
            balance: 0,
            hp: 100,
            damage: 10,
            inventory: Vec::new(),
            data: String::new(),
        }
    }
}

impl Player {
    /// A fresh player with the given login, password hash and data.
    pub fn new(login: String, password_hash: String, data: String) -> (p: Self)
        ensures
            is_fresh(p),
            p.login == login,
            p.password_hash == password_hash,
            p.data == data,
    {
        let d = Player::default();
        Player { login, password_hash, data, ..d }
    }

    /// A copy of the player with the same content.
    pub fn duplicate(&self) -> (r: Self)
        ensures
            same_player(r, *self),
    {
        let mut inventory: Vec<Item> = Vec::new();
        let n = self.inventory.len();
        let mut i: usize = 0;
        while i < n
            invariant
                i <= n,
                n == self.inventory@.len(),
                inventory@.len() == i,
                forall|k: int| 0 <= k < i ==> (#[trigger] inventory@[k])@ == self.inventory@[k]@,
            decreases n - i,
        {
            inventory.push(self.inventory[i].duplicate());
            i = i + 1;
        }
        assert(item_views(inventory@) =~= item_views(self.inventory@));
        Player {
            login: self.login.clone(),
            password_hash: self.password_hash.clone(),
            class: self.class,
            balance: self.balance,
            hp: self.hp,
            damage: self.damage,
            inventory,
            data: self.data.clone(),
        }
    }

    /// The player as a person reads it.
    pub fn to_string(&self) -> (s: String)
        ensures
            s@ == player_text(*self),
    {
        let ghost items = item_views(self.inventory@);
        let n = self.inventory.len();
        let mut inv = String::new();
        let mut i: usize = 0;
        while i < n
            invariant
                i <= n,
                n == self.inventory@.len(),
                items == item_views(self.inventory@),
                inv@ == inventory_text(items.take(i as int)),
            decreases n - i,
        {
            let ghost before = inv@;
            inv.append(u64_to_decimal(i as u64).as_str());
            inv.append(") ");
            inv.append(self.inventory[i].to_string().as_str());
            assert(items.take(i + 1).drop_last() =~= items.take(i as int));
            i = i + 1;
        }
        assert(items.take(n as int) =~= items);
        let mut s = self.login.clone();
        s.append(" (");
        s.append(self.class.to_debug_string().as_str());
        s.append(")\nHP: ");
        s.append(i64_to_decimal(self.hp).as_str());
        s.append("\nDMG: ");
        s.append(u64_to_decimal(self.damage as u64).as_str());
        s.append("\nBalance: $");
        s.append(i64_to_decimal(self.balance).as_str());
        s.append("\n Inventory: ");
        s.append(debug_quote(inv.as_str()).as_str());
        s
    }
}

} // verus!
