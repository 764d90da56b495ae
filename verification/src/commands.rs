//! The player's commands: what each does to the state and what it shows.
use crate::engine::{
    enter_scene, entered, format_scene, game_result, hp_change_fits, hp_change_fits_for,
    shown_scene, CommandOutcome,
};
use crate::errors::{GameError, GameErrorView};
use crate::scenario::{find_scene, Scenario};
use crate::state::{GameState, GameStateView};
use crate::text::{i32_to_text, signed_decimal};
use vstd::prelude::*;
use vstd::string::*;

verus! {

pub trait GameCommand {
    /// The state after the command and its result, from the state before.
    spec fn effect(&self, scenario: &Scenario, before: GameStateView) -> (
        GameStateView,
        Result<CommandOutcome, GameErrorView>,
    );

    /// The command's arithmetic stays within `i32` from this state.
    spec fn fits(&self, scenario: &Scenario, before: GameStateView) -> bool;

    /// What the command shows once it has succeeded, from the state after it.
    spec fn shown(&self, scenario: &Scenario, after: GameStateView) -> Seq<char>;

    fn execute(&self, scenario: &Scenario, state: &mut GameState) -> (res: Result<
        CommandOutcome,
        GameError,
    >)
        requires
            self.fits(scenario, old(state)@),
        ensures
            final(state)@ == self.effect(scenario, old(state)@).0,
            game_result(res) == self.effect(scenario, old(state)@).1,
    ;

    /// The text the command shows after it has succeeded.
    fn report(&self, scenario: &Scenario, state: &GameState) -> (text: String)
        ensures
            text@ == self.shown(scenario, state@),
    ;

    /// Whether `fits` holds, computed.
    fn fits_in(&self, scenario: &Scenario, state: &GameState) -> (r: bool)
        ensures
            r == self.fits(scenario, state@),
    ;
}

#[derive(Debug, Clone, Copy, PartialEq, Eq, Structural)]
pub struct LookCommand;

#[derive(Debug, Clone, Copy, PartialEq, Eq, Structural)]
pub struct InventoryCommand;

#[derive(Debug, Clone, Copy, PartialEq, Eq, Structural)]
pub struct StatusCommand;

#[derive(Debug, Clone, Copy, PartialEq, Eq, Structural)]
pub struct HelpCommand;

#[derive(Debug, Clone, Copy, PartialEq, Eq, Structural)]
pub struct QuitCommand;

#[derive(Debug, Clone, Copy, PartialEq, Eq, Structural)]
pub struct ChooseCommand {
    pub index: usize,
}

/// The current scene as shown, or nothing when it does not exist.
pub open spec fn scene_or_nothing(scenario: &Scenario, id: Seq<char>) -> Seq<char> {
    match shown_scene(scenario, id) {
        Some(t) => t,
        None => Seq::empty(),
    }
}

fn scene_or_nothing_text(scenario: &Scenario, state: &GameState) -> (s: String)
    ensures
        s@ == scene_or_nothing(scenario, state@.current_scene),
{
    match format_scene(scenario, state) {
        Some(t) => t,
        None => String::new(),
    }
}

/// Items separated by `sep`.
pub open spec fn joined(items: Seq<Seq<char>>, sep: Seq<char>) -> Seq<char>
    decreases items.len(),
{
    if items.len() == 0 {
        Seq::empty()
    } else if items.len() == 1 {
        items[0]
    } else {
        joined(items.drop_last(), sep) + sep + items.last()
    }
}

/// The inventory line.
pub open spec fn inventory_text(inventory: Seq<Seq<char>>) -> Seq<char> {
    if inventory.len() == 0 {
        "Inventory: empty\n"@
    } else {
        "Inventory: "@ + joined(inventory, ", "@) + "\n"@
    }
}

/// The status line.
pub open spec fn status_text(s: GameStateView) -> Seq<char> {
    "HP: "@ + signed_decimal(s.hp) + " | Scene: "@ + s.current_scene + "\n"@
}

/// The list of commands.
pub open spec fn help_text() -> Seq<char> {
    "Commands: look, inventory, status, choose <number>, help, quit\n"@
}

impl GameCommand for LookCommand {
    open spec fn effect(&self, scenario: &Scenario, before: GameStateView) -> (
        GameStateView,
        Result<CommandOutcome, GameErrorView>,
    ) {
        (before, Ok(CommandOutcome::Continue))
    }

    open spec fn fits(&self, scenario: &Scenario, before: GameStateView) -> bool {
        true
    }

    open spec fn shown(&self, scenario: &Scenario, after: GameStateView) -> Seq<char> {
        scene_or_nothing(scenario, after.current_scene)
    }

    fn execute(&self, scenario: &Scenario, state: &mut GameState) -> (res: Result<
        CommandOutcome,
        GameError,
    >) {
        Ok(CommandOutcome::Continue)
    }

    fn report(&self, scenario: &Scenario, state: &GameState) -> (text: String) {
        scene_or_nothing_text(scenario, state)
    }

    fn fits_in(&self, scenario: &Scenario, state: &GameState) -> (r: bool) {
        true
    }
}

impl GameCommand for InventoryCommand {
    open spec fn effect(&self, scenario: &Scenario, before: GameStateView) -> (
        GameStateView,
        Result<CommandOutcome, GameErrorView>,
    ) {
        (before, Ok(CommandOutcome::Continue))
    }

    open spec fn fits(&self, scenario: &Scenario, before: GameStateView) -> bool {
        true
    }

    open spec fn shown(&self, scenario: &Scenario, after: GameStateView) -> Seq<char> {
        inventory_text(after.inventory)
    }

    fn execute(&self, scenario: &Scenario, state: &mut GameState) -> (res: Result<
        CommandOutcome,
        GameError,
    >) {
        Ok(CommandOutcome::Continue)
    }

    fn report(&self, scenario: &Scenario, state: &GameState) -> (text: String) {
        let n = state.inventory.len();
        if n == 0 {
            return "Inventory: empty\n".to_owned();
        }
        let ghost items = state@.inventory;
        let mut s = "Inventory: ".to_owned();
        let mut i: usize = 0;
        while i < n
            invariant
                n == items.len(),
                items == state@.inventory,
                0 <= i <= n,
                s@ == "Inventory: "@ + joined(items.take(i as int), ", "@),
            decreases n - i,
        {
            if i > 0 {
                s.append(", ");
            }
            s.append(state.inventory[i].as_str());
            proof {
                assert(items.take(i + 1).drop_last() =~= items.take(i as int));
                if i == 0 {
                    assert(items.take(0) =~= Seq::<Seq<char>>::empty());
                }
            }
            i = i + 1;
        }
        assert(items.take(n as int) =~= items);
        s.append("\n");
        s
    }

    fn fits_in(&self, scenario: &Scenario, state: &GameState) -> (r: bool) {
        true
    }
}

impl GameCommand for StatusCommand {
    open spec fn effect(&self, scenario: &Scenario, before: GameStateView) -> (
        GameStateView,
        Result<CommandOutcome, GameErrorView>,
    ) {
        (before, Ok(CommandOutcome::Continue))
    }

    open spec fn fits(&self, scenario: &Scenario, before: GameStateView) -> bool {
        true
    }

    open spec fn shown(&self, scenario: &Scenario, after: GameStateView) -> Seq<char> {
        status_text(after)
    }

    fn execute(&self, scenario: &Scenario, state: &mut GameState) -> (res: Result<
        CommandOutcome,
        GameError,
    >) {
        Ok(CommandOutcome::Continue)
    }

    fn report(&self, scenario: &Scenario, state: &GameState) -> (text: String) {
        let mut s = "HP: ".to_owned();
        s.append(i32_to_text(state.hp).as_str());
        s.append(" | Scene: ");
        s.append(state.current_scene.as_str());
        s.append("\n");
        s
    }

    fn fits_in(&self, scenario: &Scenario, state: &GameState) -> (r: bool) {
        true
    }
}

impl GameCommand for HelpCommand {
    open spec fn effect(&self, scenario: &Scenario, before: GameStateView) -> (
        GameStateView,
        Result<CommandOutcome, GameErrorView>,
    ) {
        (before, Ok(CommandOutcome::Continue))
    }

    open spec fn fits(&self, scenario: &Scenario, before: GameStateView) -> bool {
        true
    }

    open spec fn shown(&self, scenario: &Scenario, after: GameStateView) -> Seq<char> {
        help_text()
    }

    fn execute(&self, scenario: &Scenario, state: &mut GameState) -> (res: Result<
        CommandOutcome,
        GameError,
    >) {
        Ok(CommandOutcome::Continue)
    }

    fn report(&self, scenario: &Scenario, state: &GameState) -> (text: String) {
        "Commands: look, inventory, status, choose <number>, help, quit\n".to_owned()
    }

    fn fits_in(&self, scenario: &Scenario, state: &GameState) -> (r: bool) {
        true
    }
}

impl GameCommand for QuitCommand {
    open spec fn effect(&self, scenario: &Scenario, before: GameStateView) -> (
        GameStateView,
        Result<CommandOutcome, GameErrorView>,
    ) {
        (before, Ok(CommandOutcome::Exit))
    }

    open spec fn fits(&self, scenario: &Scenario, before: GameStateView) -> bool {
        true
    }

    open spec fn shown(&self, scenario: &Scenario, after: GameStateView) -> Seq<char> {
        Seq::empty()
    }

    fn execute(&self, scenario: &Scenario, state: &mut GameState) -> (res: Result<
        CommandOutcome,
        GameError,
    >) {
        Ok(CommandOutcome::Exit)
    }

    fn report(&self, scenario: &Scenario, state: &GameState) -> (text: String) {
        String::new()
    }

    fn fits_in(&self, scenario: &Scenario, state: &GameState) -> (r: bool) {
        true
    }
}

/// The scene that choice `index` (counted from 1) of the current scene leads to,
/// when the choice exists and the player holds the item it requires.
pub open spec fn choice_target(scenario: &Scenario, before: GameStateView, index: int) -> Option<
    Seq<char>,
> {
    match find_scene(scenario.scenes@, before.current_scene) {
        None => None,
        Some(i) => {
            let scene = scenario.scenes@[i];
            if index == 0 || index > scene.choices@.len() {
                None
            } else {
                let choice = scene.choices@[index - 1];
                match choice.required_item {
                    Some(req) => if before.inventory.contains(req@) {
                        Some(choice.next@)
                    } else {
                        None
                    },
                    None => Some(choice.next@),
                }
            }
        },
    }
}

/// Taking choice `index` of the current scene: the choice must exist and its
/// required item must be held; the player then moves to the choice's scene and
/// enters it, and the game ends when that scene is an ending.
pub open spec fn chosen(scenario: &Scenario, before: GameStateView, index: int) -> (
    GameStateView,
    Result<CommandOutcome, GameErrorView>,
) {
    match find_scene(scenario.scenes@, before.current_scene) {
        None => (before, Err(GameErrorView::UnknownScene(before.current_scene))),
        Some(i) => {
            let scene = scenario.scenes@[i];
            if index == 0 || index > scene.choices@.len() {
                (before, Err(GameErrorView::InvalidChoice))
            } else {
                let choice = scene.choices@[index - 1];
                if choice.required_item is Some && !before.inventory.contains(
                    choice.required_item->0@,
                ) {
                    (before, Err(GameErrorView::MissingItem(choice.required_item->0@)))
                } else {
                    let moved = GameStateView { current_scene: choice.next@, ..before };
                    let (after, r) = entered(scenario, moved);
                    match r {
                        Err(e) => (after, Err(e)),
                        Ok(()) => match find_scene(scenario.scenes@, after.current_scene) {
                            None => (after, Err(GameErrorView::UnknownScene(after.current_scene))),
                            Some(j) => match scenario.scenes@[j].ending {
                                Some(e) => (after, Ok(CommandOutcome::SceneEnded(e))),
                                None => (after, Ok(CommandOutcome::Continue)),
                            },
                        },
                    }
                }
            }
        },
    }
}

impl GameCommand for ChooseCommand {
    open spec fn effect(&self, scenario: &Scenario, before: GameStateView) -> (
        GameStateView,
        Result<CommandOutcome, GameErrorView>,
    ) {
        chosen(scenario, before, self.index as int)
    }

    open spec fn fits(&self, scenario: &Scenario, before: GameStateView) -> bool {
        match choice_target(scenario, before, self.index as int) {
            Some(next) => hp_change_fits(scenario, next, before.hp),
            None => true,
        }
    }

    open spec fn shown(&self, scenario: &Scenario, after: GameStateView) -> Seq<char> {
        scene_or_nothing(scenario, after.current_scene)
    }

    fn execute(&self, scenario: &Scenario, state: &mut GameState) -> (res: Result<
        CommandOutcome,
        GameError,
    >) {
        let scene = match scenario.scene_by_id(state.current_scene.as_str()) {
            Some(scene) => scene,
            None => {
                return Err(GameError::UnknownScene(state.current_scene.clone()));
            },
        };
        if self.index == 0 || self.index > scene.choices.len() {
            return Err(GameError::InvalidChoice);
        }
        let choice = &scene.choices[self.index - 1];
        if let Some(required) = &choice.required_item {
            if !state.has_item(required.as_str()) {
                return Err(GameError::MissingItem(required.clone()));
            }
        }
        state.current_scene = choice.next.clone();
        match enter_scene(scenario, state) {
            Ok(()) => {},
            Err(e) => {
                return Err(e);
            },
        }
        let new_scene = match scenario.scene_by_id(state.current_scene.as_str()) {
            Some(scene) => scene,
            None => {
                return Err(GameError::UnknownScene(state.current_scene.clone()));
            },
        };
        if let Some(ending) = &new_scene.ending {
            return Ok(CommandOutcome::SceneEnded(*ending));
        }
        Ok(CommandOutcome::Continue)
    }

    fn report(&self, scenario: &Scenario, state: &GameState) -> (text: String) {
        scene_or_nothing_text(scenario, state)
    }

    fn fits_in(&self, scenario: &Scenario, state: &GameState) -> (r: bool) {
        let scene = match scenario.scene_by_id(state.current_scene.as_str()) {
            Some(scene) => scene,
            None => {
                return true;
            },
        };
        if self.index == 0 || self.index > scene.choices.len() {
            return true;
        }
        let choice = &scene.choices[self.index - 1];
        if let Some(required) = &choice.required_item {
            if !state.has_item(required.as_str()) {
                return true;
            }
        }
        hp_change_fits_for(scenario, choice.next.as_str(), state.hp)
    }
}

/// A parsed command.
#[derive(Debug, Clone, Copy, PartialEq, Eq, Structural)]
pub enum Command {
    Look(LookCommand),
    Inventory(InventoryCommand),
    Status(StatusCommand),
    Help(HelpCommand),
    Quit(QuitCommand),
    Choose(ChooseCommand),
}

impl GameCommand for Command {
    open spec fn effect(&self, scenario: &Scenario, before: GameStateView) -> (
        GameStateView,
        Result<CommandOutcome, GameErrorView>,
    ) {
        match self {
            Command::Look(c) => c.effect(scenario, before),
            Command::Inventory(c) => c.effect(scenario, before),
            Command::Status(c) => c.effect(scenario, before),
            Command::Help(c) => c.effect(scenario, before),
            Command::Quit(c) => c.effect(scenario, before),
            Command::Choose(c) => c.effect(scenario, before),
        }
    }

    open spec fn fits(&self, scenario: &Scenario, before: GameStateView) -> bool {
        match self {
            Command::Choose(c) => c.fits(scenario, before),
            _ => true,
        }
    }

    open spec fn shown(&self, scenario: &Scenario, after: GameStateView) -> Seq<char> {
        match self {
            Command::Look(c) => c.shown(scenario, after),
            Command::Inventory(c) => c.shown(scenario, after),
            Command::Status(c) => c.shown(scenario, after),
            Command::Help(c) => c.shown(scenario, after),
            Command::Quit(c) => c.shown(scenario, after),
            Command::Choose(c) => c.shown(scenario, after),
        }
    }

    fn execute(&self, scenario: &Scenario, state: &mut GameState) -> (res: Result<
        CommandOutcome,
        GameError,
    >) {
        match self {
            Command::Look(c) => c.execute(scenario, state),
            Command::Inventory(c) => c.execute(scenario, state),
            Command::Status(c) => c.execute(scenario, state),
            Command::Help(c) => c.execute(scenario, state),
            Command::Quit(c) => c.execute(scenario, state),
            Command::Choose(c) => c.execute(scenario, state),
        }
    }

    fn report(&self, scenario: &Scenario, state: &GameState) -> (text: String) {
        match self {
            Command::Look(c) => c.report(scenario, state),
            Command::Inventory(c) => c.report(scenario, state),
            Command::Status(c) => c.report(scenario, state),
            Command::Help(c) => c.report(scenario, state),
            Command::Quit(c) => c.report(scenario, state),
            Command::Choose(c) => c.report(scenario, state),
        }
    }

    fn fits_in(&self, scenario: &Scenario, state: &GameState) -> (r: bool) {
        match self {
            Command::Choose(c) => c.fits_in(scenario, state),
            _ => true,
        }
    }
}

} // verus!
