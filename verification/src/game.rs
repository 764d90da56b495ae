//! A game session: starting a story and playing it one line of input at a time.
//! Reading the lines and printing the text stay with the caller.
use crate::commands::{scene_or_nothing, Command, GameCommand};
use crate::engine::{enter_scene, entered, format_scene, hp_change_fits, CommandOutcome};
use crate::errors::{game_error_text, GameError, GameErrorView, ParseError, ParseErrorView};
use crate::parser::parse_result;
use crate::scenario::{ending_label, Scenario};
use crate::state::{GameState, GameStateView};
use vstd::prelude::*;
use vstd::string::*;

verus! {

/// What one line of input produced: the text to print, and whether the game is
/// over.
pub struct TurnReport {
    pub output: String,
    pub finished: bool,
}

/// The text printed for a line that did not parse; nothing for a blank line.
pub open spec fn parse_error_text(e: ParseErrorView) -> Seq<char> {
    match e {
        ParseErrorView::Empty => Seq::empty(),
        ParseErrorView::UnknownCommand(cmd) => "Unknown command: "@ + cmd + "\n"@,
        ParseErrorView::MissingArgument(cmd) => "Missing argument for: "@ + cmd + "\n"@,
        ParseErrorView::InvalidNumber(value) => "Invalid number: "@ + value + "\n"@,
    }
}

fn line_of(prefix: &str, rest: &String) -> (s: String)
    ensures
        s@ == prefix@ + rest@ + "\n"@,
{
    let mut s = prefix.to_owned();
    s.append(rest.as_str());
    s.append("\n");
    s
}

/// The text printed for a line that did not parse.
pub fn parse_error_report(e: &ParseError) -> (s: String)
    ensures
        s@ == parse_error_text(e@),
{
    match e {
        ParseError::Empty => String::new(),
        ParseError::UnknownCommand(cmd) => line_of("Unknown command: ", cmd),
        ParseError::MissingArgument(cmd) => line_of("Missing argument for: ", cmd),
        ParseError::InvalidNumber(value) => line_of("Invalid number: ", value),
    }
}

/// One turn: the state after it, the text it prints, and whether the game ends.
/// A command that succeeds shows its text; an ending is announced; a game over
/// shows the scene where it happened; other errors are reported and play goes on.
pub open spec fn turn(scenario: &Scenario, s: GameStateView, parsed: Result<Command, ParseErrorView>) -> (
    GameStateView,
    Seq<char>,
    bool,
) {
    match parsed {
        Err(e) => (s, parse_error_text(e), false),
        Ok(cmd) => {
            let (after, r) = cmd.effect(scenario, s);
            match r {
                Ok(CommandOutcome::Continue) => (after, cmd.shown(scenario, after), false),
                Ok(CommandOutcome::Exit) => (after, cmd.shown(scenario, after), true),
                Ok(CommandOutcome::SceneEnded(e)) => (
                    after,
                    cmd.shown(scenario, after) + "End: "@ + ending_label(e) + "\n"@,
                    true,
                ),
                Err(GameErrorView::GameOver) => (
                    after,
                    scene_or_nothing(scenario, after.current_scene) + "Game Over\n"@,
                    true,
                ),
                Err(e) => (after, "Error: "@ + game_error_text(e) + "\n"@, false),
            }
        },
    }
}

/// Plays one parsed line of input.
pub fn play_turn(scenario: &Scenario, state: &mut GameState, parsed: Result<Command, ParseError>) -> (r: TurnReport)
    requires
        parsed matches Ok(cmd) ==> cmd.fits(scenario, old(state)@),
    ensures
        final(state)@ == turn(scenario, old(state)@, parse_result(parsed)).0,
        r.output@ == turn(scenario, old(state)@, parse_result(parsed)).1,
        r.finished == turn(scenario, old(state)@, parse_result(parsed)).2,
{
    let cmd = match parsed {
        Err(e) => {
            return TurnReport { output: parse_error_report(&e), finished: false };
        },
        Ok(cmd) => cmd,
    };
    match cmd.execute(scenario, state) {
        Ok(CommandOutcome::Continue) => TurnReport { output: cmd.report(scenario, state), finished: false },
        Ok(CommandOutcome::Exit) => TurnReport { output: cmd.report(scenario, state), finished: true },
        Ok(CommandOutcome::SceneEnded(ending)) => {
            let mut output = cmd.report(scenario, state);
            output.append("End: ");
            output.append(ending.as_label());
            output.append("\n");
            TurnReport { output, finished: true }
        },
        Err(GameError::GameOver) => {
            let mut output = match format_scene(scenario, state) {
                Some(t) => t,
                None => String::new(),
            };
            output.append("Game Over\n");
            TurnReport { output, finished: true }
        },
        Err(e) => {
            let mut output = "Error: ".to_owned();
            output.append(e.message().as_str());
            output.append("\n");
            TurnReport { output, finished: false }
        },
    }
}

/// The state the story starts from, before its first scene is entered.
pub open spec fn initial_state(scenario: &Scenario) -> GameStateView {
    GameStateView {
        current_scene: scenario.start_scene@,
        hp: scenario.initial_hp as int,
        inventory: Seq::empty(),
    }
}

/// Starts the story: enters the start scene from the initial hit points, and
/// gives the state and the text of the start scene.
pub fn start_game(scenario: &Scenario) -> (res: Result<(GameState, String), GameError>)
    requires
        hp_change_fits(scenario, scenario.start_scene@, scenario.initial_hp as int),
    ensures
        match res {
            Ok((state, text)) => {
                &&& entered(scenario, initial_state(scenario)).1 is Ok
                &&& state@ == entered(scenario, initial_state(scenario)).0
                &&& text@ == scene_or_nothing(scenario, state@.current_scene)
            },
            Err(e) => entered(scenario, initial_state(scenario)).1 == Err::<(), GameErrorView>(e@),
        },
{
    let mut state = GameState::new(scenario.start_scene.clone(), scenario.initial_hp);
    assert(state@ == initial_state(scenario));
    match enter_scene(scenario, &mut state) {
        Ok(()) => {},
        Err(e) => {
            return Err(e);
        },
    }
    let text = match format_scene(scenario, &state) {
        Some(t) => t,
        None => String::new(),
    };
    Ok((state, text))
}

} // verus!
