//! Entering scenes and showing them.
use crate::errors::{GameError, GameErrorView};
use crate::scenario::{find_scene, Choice, Ending, Scenario, Scene};
use crate::state::{with_item, GameState, GameStateView};
use crate::text::{decimal, u64_to_text};
use vstd::prelude::*;
use vstd::string::*;

verus! {

#[derive(Debug, PartialEq, Eq, Clone, Copy, Structural)]
pub enum CommandOutcome {
    Continue,
    Exit,
    SceneEnded(Ending),
}

/// A result whose error is taken as its view.
pub open spec fn game_result<T>(r: Result<T, GameError>) -> Result<T, GameErrorView> {
    match r {
        Ok(v) => Ok(v),
        Err(e) => Err(e@),
    }
}

/// Adding the hit-point change of scene `id` to `hp` stays within `i32`.
pub open spec fn hp_change_fits(scenario: &Scenario, id: Seq<char>, hp: int) -> bool {
    match find_scene(scenario.scenes@, id) {
        Some(i) => match scenario.scenes@[i].hp_delta {
            Some(d) => i32::MIN <= hp + d <= i32::MAX,
            None => true,
        },
        None => true,
    }
}

/// The state after entering the current scene, and whether that went well:
/// the scene's hit-point change applies, the game is over when hit points drop
/// to zero or below, and otherwise the scene's item is picked up.
pub open spec fn entered(scenario: &Scenario, s: GameStateView) -> (GameStateView, Result<(), GameErrorView>) {
    match find_scene(scenario.scenes@, s.current_scene) {
        None => (s, Err(GameErrorView::UnknownScene(s.current_scene))),
        Some(i) => {
            let scene = scenario.scenes@[i];
            let hp = match scene.hp_delta {
                Some(d) => s.hp + d,
                None => s.hp,
            };
            let hurt = GameStateView { hp: hp, ..s };
            if hp <= 0 {
                (hurt, Err(GameErrorView::GameOver))
            } else {
                match scene.found_item {
                    Some(item) => (
                        GameStateView { inventory: with_item(s.inventory, item@), ..hurt },
                        Ok(()),
                    ),
                    None => (hurt, Ok(())),
                }
            }
        },
    }
}

/// Whether `hp_change_fits` holds, computed.
pub fn hp_change_fits_for(scenario: &Scenario, id: &str, hp: i32) -> (r: bool)
    ensures
        r == hp_change_fits(scenario, id@, hp as int),
{
    match scenario.scene_by_id(id) {
        Some(scene) => match scene.hp_delta {
            Some(d) => {
                let sum: i64 = hp as i64 + d as i64;
                i32::MIN as i64 <= sum && sum <= i32::MAX as i64
            },
            None => true,
        },
        None => true,
    }
}

/// Enters the current scene: applies its hit-point change, reports the end of the
/// game when hit points are exhausted, and picks up the scene's item.
pub fn enter_scene(scenario: &Scenario, state: &mut GameState) -> (res: Result<(), GameError>)
    requires
        hp_change_fits(scenario, old(state)@.current_scene, old(state)@.hp),
    ensures
        final(state)@ == entered(scenario, old(state)@).0,
        game_result(res) == entered(scenario, old(state)@).1,
{
    let scene = match scenario.scene_by_id(state.current_scene.as_str()) {
        Some(scene) => scene,
        None => {
            return Err(GameError::UnknownScene(state.current_scene.clone()));
        },
    };
    if let Some(delta) = scene.hp_delta {
        state.hp = state.hp + delta;
    }
    if state.hp <= 0 {
        return Err(GameError::GameOver);
    }
    if let Some(item) = &scene.found_item {
        state.add_item(item.clone());
    }
    Ok(())
}

/// The lines that list the first `k` choices, numbered from 1.
pub open spec fn choice_lines(choices: Seq<Choice>, k: int) -> Seq<char>
    decreases k,
{
    if k <= 0 {
        Seq::empty()
    } else {
        choice_lines(choices, k - 1) + decimal(k as nat) + ". "@ + choices[k - 1].label@ + "\n"@
    }
}

/// How a scene is shown: its title, its text, then its numbered choices, each on
/// a line of its own.
pub open spec fn scene_text(scene: Scene) -> Seq<char> {
    scene.title@ + "\n"@ + scene.text@ + "\n"@ + choice_lines(scene.choices@, scene.choices@.len() as int)
}

/// How the current scene is shown, when it exists.
pub open spec fn shown_scene(scenario: &Scenario, id: Seq<char>) -> Option<Seq<char>> {
    match find_scene(scenario.scenes@, id) {
        Some(i) => Some(scene_text(scenario.scenes@[i])),
        None => None,
    }
}

/// The text of a scene as it is shown.
pub fn scene_to_text(scene: &Scene) -> (s: String)
    ensures
        s@ == scene_text(*scene),
{
    let mut s = scene.title.clone();
    s.append("\n");
    s.append(scene.text.as_str());
    s.append("\n");
    let n = scene.choices.len();
    let mut k: usize = 0;
    while k < n
        invariant
            n == scene.choices@.len(),
            0 <= k <= n,
            s@ == scene.title@ + "\n"@ + scene.text@ + "\n"@ + choice_lines(scene.choices@, k as int),
        decreases n - k,
    {
        let number = u64_to_text((k + 1) as u64);
        s.append(number.as_str());
        s.append(". ");
        s.append(scene.choices[k].label.as_str());
        s.append("\n");
        proof {
            assert(choice_lines(scene.choices@, k + 1) == choice_lines(scene.choices@, k as int)
                + decimal((k + 1) as nat) + ". "@ + scene.choices@[k as int].label@ + "\n"@);
        }
        k = k + 1;
    }
    s
}

/// The current scene as it is shown, or `None` when no scene has the current id.
pub fn format_scene(scenario: &Scenario, state: &GameState) -> (res: Option<String>)
    ensures
        match res {
            Some(s) => shown_scene(scenario, state@.current_scene) == Some(s@),
            None => shown_scene(scenario, state@.current_scene) is None,
        },
{
    match scenario.scene_by_id(state.current_scene.as_str()) {
        Some(scene) => Some(scene_to_text(scene)),
        None => None,
    }
}

} // verus!
