//! The player's state: where they are, their hit points, what they carry.
use crate::text::same_text;
use vstd::prelude::*;

verus! {

#[derive(Debug, Clone)]
pub struct GameState {
    pub current_scene: String,
    pub hp: i32,
    pub inventory: Vec<String>,
}

/// A [`GameState`] with its text taken as characters.
pub struct GameStateView {
    pub current_scene: Seq<char>,
    pub hp: int,
    pub inventory: Seq<Seq<char>>,
}

impl View for GameState {
    type V = GameStateView;

    open spec fn view(&self) -> GameStateView {
        GameStateView {
            current_scene: self.current_scene@,
            hp: self.hp as int,
            inventory: self.inventory.deep_view(),
        }
    }
}

/// An inventory after picking up `item`: unchanged when it already holds the item,
/// else the item comes last.
pub open spec fn with_item(inventory: Seq<Seq<char>>, item: Seq<char>) -> Seq<Seq<char>> {
    if inventory.contains(item) {
        inventory
    } else {
        inventory.push(item)
    }
}

/// No item occurs twice.
pub open spec fn no_duplicates(inventory: Seq<Seq<char>>) -> bool {
    forall|i: int, j: int|
        0 <= i < inventory.len() && 0 <= j < inventory.len() && i != j ==> inventory[i]
            != inventory[j]
}

impl GameState {
    pub fn new(start_scene: String, initial_hp: i32) -> (s: Self)
        ensures
            s@.current_scene == start_scene@,
            s@.hp == initial_hp,
            s@.inventory == Seq::<Seq<char>>::empty(),
    {
        let s = GameState { current_scene: start_scene, hp: initial_hp, inventory: Vec::new() };
        assert(s@.inventory =~= Seq::<Seq<char>>::empty());
        s
    }

    pub fn has_item(&self, item: &str) -> (r: bool)
        ensures
            r == self@.inventory.contains(item@),
    {
        let n = self.inventory.len();
        let mut i: usize = 0;
        while i < n
            invariant
                n == self.inventory@.len(),
                0 <= i <= n,
                forall|j: int| 0 <= j < i ==> self@.inventory[j] != item@,
            decreases n - i,
        {
            if same_text(&self.inventory[i], item) {
                assert(self@.inventory[i as int] == item@);
                return true;
            }
            i = i + 1;
        }
        false
    }

    pub fn add_item(&mut self, item: String)
        ensures
            final(self)@.inventory == with_item(old(self)@.inventory, item@),
            final(self)@.current_scene == old(self)@.current_scene,
            final(self)@.hp == old(self)@.hp,
    {
        if !self.has_item(item.as_str()) {
            let ghost before = self.inventory.deep_view();
            self.inventory.push(item);
            assert(self.inventory.deep_view() =~= before.push(item@));
        }
    }
}

} // verus!
