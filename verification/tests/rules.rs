use tp2::commands::{
    ChooseCommand, Command, GameCommand, HelpCommand, InventoryCommand, LookCommand, QuitCommand,
    StatusCommand,
};
use tp2::engine::{enter_scene, format_scene, hp_change_fits_for, CommandOutcome};
use tp2::errors::{GameError, ParseError, ValidationError};
use tp2::game::{parse_error_report, play_turn, start_game};
use tp2::parser::parse_command;
use tp2::scenario::{Choice, Ending, Scenario, Scene};
use tp2::state::GameState;

fn choice(label: &str, next: &str, required: Option<&str>) -> Choice {
    Choice {
        label: label.to_string(),
        next: next.to_string(),
        required_item: required.map(|s| s.to_string()),
    }
}

fn scene(id: &str, choices: Vec<Choice>) -> Scene {
    Scene {
        id: id.to_string(),
        title: format!("Title {id}"),
        text: format!("Text {id}"),
        choices,
        found_item: None,
        hp_delta: None,
        ending: None,
    }
}

fn story() -> Scenario {
    let mut start = scene("start", vec![choice("Go to the cave", "cave", None), choice("Open the door", "door", Some("key"))]);
    start.title = "Crossroads".to_string();
    start.text = "Two ways.".to_string();
    let mut cave = scene("cave", vec![choice("Back", "start", None), choice("Deeper", "pit", None)]);
    cave.found_item = Some("key".to_string());
    cave.hp_delta = Some(-3);
    let mut pit = scene("pit", vec![]);
    pit.hp_delta = Some(-20);
    let mut door = scene("door", vec![]);
    door.ending = Some(Ending::Escape);
    Scenario { start_scene: "start".to_string(), initial_hp: 10, scenes: vec![start, cave, pit, door] }
}

#[test]
fn validate_accepts_a_sound_story() {
    assert_eq!(story().validate(), Ok(()));
}

#[test]
fn validate_reports_problems_in_order() {
    let mut s = story();
    s.start_scene = "nowhere".to_string();
    s.scenes.push(scene("cave", vec![]));
    s.scenes[0].choices.push(choice("Fly", "sky", None));
    // duplicates come first
    assert_eq!(s.validate(), Err(ValidationError::DuplicateSceneId("cave".to_string())));
    s.scenes.pop();
    assert_eq!(s.validate(), Err(ValidationError::StartSceneMissing("nowhere".to_string())));
    s.start_scene = "start".to_string();
    assert_eq!(s.validate(), Err(ValidationError::MissingScene("sky".to_string())));
}

#[test]
fn validate_names_the_first_missing_target() {
    let mut s = story();
    s.scenes[1].choices.push(choice("A", "first_missing", None));
    s.scenes[3].choices.push(choice("B", "second_missing", None));
    assert_eq!(s.validate(), Err(ValidationError::MissingScene("first_missing".to_string())));
}

#[test]
fn scene_by_id_finds_the_first_match() {
    let mut s = story();
    let mut twin = scene("cave", vec![]);
    twin.title = "Twin".to_string();
    s.scenes.push(twin);
    assert_eq!(s.scene_by_id("cave").map(|sc| sc.title.clone()), Some("Title cave".to_string()));
    assert!(s.scene_by_id("moon").is_none());
}

#[test]
fn labels_of_endings() {
    assert_eq!(Ending::Victory.as_label(), "Victory");
    assert_eq!(Ending::Escape.as_label(), "Escape");
    assert_eq!(Ending::Defeat.as_label(), "Defeat");
}

#[test]
fn new_state_and_items() {
    let mut st = GameState::new("start".to_string(), 7);
    assert_eq!(st.current_scene, "start");
    assert_eq!(st.hp, 7);
    assert!(st.inventory.is_empty());
    assert!(!st.has_item("key"));
    st.add_item("key".to_string());
    assert!(st.has_item("key"));
    st.add_item("rope".to_string());
    st.add_item("key".to_string());
    assert_eq!(st.inventory, vec!["key".to_string(), "rope".to_string()]);
}

#[test]
fn entering_applies_damage_and_items() {
    let s = story();
    let mut st = GameState::new("cave".to_string(), 10);
    assert_eq!(enter_scene(&s, &mut st), Ok(()));
    assert_eq!(st.hp, 7);
    assert_eq!(st.inventory, vec!["key".to_string()]);
    assert_eq!(enter_scene(&s, &mut st), Ok(()));
    assert_eq!(st.hp, 4);
    assert_eq!(st.inventory, vec!["key".to_string()]);
}

#[test]
fn entering_exhausted_keeps_the_damage() {
    let s = story();
    let mut st = GameState::new("cave".to_string(), 3);
    assert_eq!(enter_scene(&s, &mut st), Err(GameError::GameOver));
    assert_eq!(st.hp, 0);
    assert!(st.inventory.is_empty());
}

#[test]
fn entering_an_unknown_scene_fails() {
    let s = story();
    let mut st = GameState::new("moon".to_string(), 3);
    assert_eq!(enter_scene(&s, &mut st), Err(GameError::UnknownScene("moon".to_string())));
    assert_eq!(st.hp, 3);
}

#[test]
fn hp_overflow_is_detected() {
    let mut s = story();
    s.scenes[1].hp_delta = Some(i32::MAX);
    assert!(!hp_change_fits_for(&s, "cave", 1));
    assert!(hp_change_fits_for(&s, "cave", 0));
    assert!(hp_change_fits_for(&s, "start", i32::MAX));
    assert!(hp_change_fits_for(&s, "moon", i32::MIN));
    let st = GameState::new("start".to_string(), 5);
    assert!(!Command::Choose(ChooseCommand { index: 1 }).fits_in(&s, &st));
    assert!(Command::Choose(ChooseCommand { index: 2 }).fits_in(&s, &st));
}

#[test]
fn format_scene_lists_numbered_choices() {
    let s = story();
    let st = GameState::new("start".to_string(), 10);
    assert_eq!(
        format_scene(&s, &st),
        Some("Crossroads\nTwo ways.\n1. Go to the cave\n2. Open the door\n".to_string())
    );
    let st = GameState::new("pit".to_string(), 10);
    assert_eq!(format_scene(&s, &st), Some("Title pit\nText pit\n".to_string()));
    let st = GameState::new("moon".to_string(), 10);
    assert_eq!(format_scene(&s, &st), None);
}

#[test]
fn reports_of_plain_commands() {
    let s = story();
    let mut st = GameState::new("start".to_string(), -3);
    assert_eq!(InventoryCommand.report(&s, &st), "Inventory: empty\n");
    st.add_item("key".to_string());
    st.add_item("rope".to_string());
    assert_eq!(InventoryCommand.report(&s, &st), "Inventory: key, rope\n");
    assert_eq!(StatusCommand.report(&s, &st), "HP: -3 | Scene: start\n");
    assert_eq!(QuitCommand.report(&s, &st), "");
    assert!(HelpCommand.report(&s, &st).contains("choose"));
    assert_eq!(LookCommand.report(&s, &st), format_scene(&s, &st).unwrap());
}

#[test]
fn plain_commands_do_not_change_state() {
    let s = story();
    let mut st = GameState::new("start".to_string(), 4);
    for cmd in [
        Command::Look(LookCommand),
        Command::Inventory(InventoryCommand),
        Command::Status(StatusCommand),
        Command::Help(HelpCommand),
    ] {
        assert_eq!(cmd.execute(&s, &mut st), Ok(CommandOutcome::Continue));
    }
    assert_eq!(Command::Quit(QuitCommand).execute(&s, &mut st), Ok(CommandOutcome::Exit));
    assert_eq!(st.current_scene, "start");
    assert_eq!(st.hp, 4);
    assert!(st.inventory.is_empty());
}

#[test]
fn refused_choices_change_nothing() {
    let s = story();
    let mut st = GameState::new("start".to_string(), 4);
    assert_eq!(ChooseCommand { index: 0 }.execute(&s, &mut st), Err(GameError::InvalidChoice));
    assert_eq!(ChooseCommand { index: 3 }.execute(&s, &mut st), Err(GameError::InvalidChoice));
    assert_eq!(ChooseCommand { index: 2 }.execute(&s, &mut st), Err(GameError::MissingItem("key".to_string())));
    assert_eq!(st.current_scene, "start");
    assert_eq!(st.hp, 4);
}

#[test]
fn choosing_moves_and_ends() {
    let s = story();
    let mut st = GameState::new("start".to_string(), 10);
    assert_eq!(ChooseCommand { index: 1 }.execute(&s, &mut st), Ok(CommandOutcome::Continue));
    assert_eq!(st.current_scene, "cave");
    assert_eq!(st.hp, 7);
    assert_eq!(ChooseCommand { index: 1 }.execute(&s, &mut st), Ok(CommandOutcome::Continue));
    assert_eq!(ChooseCommand { index: 2 }.execute(&s, &mut st), Ok(CommandOutcome::SceneEnded(Ending::Escape)));
    assert_eq!(st.current_scene, "door");
    assert_eq!(st.inventory, vec!["key".to_string()]);
}

#[test]
fn choosing_into_a_pit_is_game_over() {
    let s = story();
    let mut st = GameState::new("cave".to_string(), 10);
    assert_eq!(ChooseCommand { index: 2 }.execute(&s, &mut st), Err(GameError::GameOver));
    assert_eq!(st.current_scene, "pit");
    assert_eq!(st.hp, -10);
}

#[test]
fn choosing_toward_a_missing_scene_moves_there() {
    let mut s = story();
    s.scenes[0].choices.push(choice("Fly", "sky", None));
    let mut st = GameState::new("start".to_string(), 10);
    assert_eq!(ChooseCommand { index: 3 }.execute(&s, &mut st), Err(GameError::UnknownScene("sky".to_string())));
    assert_eq!(st.current_scene, "sky");
}

#[test]
fn error_messages() {
    assert_eq!(GameError::InvalidChoice.message(), "Invalid choice");
    assert_eq!(GameError::MissingItem("key".to_string()).message(), "Missing required item: key");
    assert_eq!(GameError::UnknownScene("x".to_string()).message(), "Unknown scene: x");
    assert_eq!(GameError::GameOver.message(), "Game over");
    assert_eq!(ValidationError::StartSceneMissing("a".to_string()).message(), "start_scene does not exist: a");
    assert_eq!(ValidationError::DuplicateSceneId("b".to_string()).message(), "duplicate scene id: b");
    assert_eq!(ValidationError::MissingScene("c".to_string()).message(), "missing scene for choice: c");
    assert_eq!(parse_error_report(&ParseError::Empty), "");
    assert_eq!(parse_error_report(&ParseError::UnknownCommand("fly".to_string())), "Unknown command: fly\n");
    assert_eq!(parse_error_report(&ParseError::MissingArgument("choose".to_string())), "Missing argument for: choose\n");
    assert_eq!(parse_error_report(&ParseError::InvalidNumber("x".to_string())), "Invalid number: x\n");
}

#[test]
fn a_whole_game_turn_by_turn() {
    let s = story();
    let (mut st, text) = start_game(&s).expect("start");
    assert_eq!(text, "Crossroads\nTwo ways.\n1. Go to the cave\n2. Open the door\n");

    let r = play_turn(&s, &mut st, parse_command("dance"));
    assert_eq!((r.output.as_str(), r.finished), ("Unknown command: dance\n", false));

    let r = play_turn(&s, &mut st, parse_command(""));
    assert_eq!((r.output.as_str(), r.finished), ("", false));

    let r = play_turn(&s, &mut st, parse_command("choose 2"));
    assert_eq!((r.output.as_str(), r.finished), ("Error: Missing required item: key\n", false));

    let r = play_turn(&s, &mut st, parse_command("choose 1"));
    assert_eq!(r.output, "Title cave\nText cave\n1. Back\n2. Deeper\n");
    assert!(!r.finished);

    let r = play_turn(&s, &mut st, parse_command("status"));
    assert_eq!(r.output, "HP: 7 | Scene: cave\n");

    let r = play_turn(&s, &mut st, parse_command("inventory"));
    assert_eq!(r.output, "Inventory: key\n");

    let r = play_turn(&s, &mut st, parse_command("choose 1"));
    assert!(!r.finished);
    let r = play_turn(&s, &mut st, parse_command("choose 2"));
    assert_eq!((r.output.as_str(), r.finished), ("Title door\nText door\nEnd: Escape\n", true));
}

#[test]
fn game_over_shows_the_scene() {
    let s = story();
    let mut st = GameState::new("cave".to_string(), 10);
    let r = play_turn(&s, &mut st, parse_command("choose 2"));
    assert_eq!((r.output.as_str(), r.finished), ("Title pit\nText pit\nGame Over\n", true));
}

#[test]
fn quit_ends_quietly() {
    let s = story();
    let mut st = GameState::new("start".to_string(), 10);
    let r = play_turn(&s, &mut st, parse_command("quit"));
    assert_eq!((r.output.as_str(), r.finished), ("", true));
}

#[test]
fn start_fails_when_the_start_is_deadly() {
    let mut s = story();
    s.start_scene = "pit".to_string();
    assert_eq!(start_game(&s).err(), Some(GameError::GameOver));
    s.start_scene = "moon".to_string();
    assert_eq!(start_game(&s).err(), Some(GameError::UnknownScene("moon".to_string())));
}

#[test]
fn valid_story_keeps_the_player_in_a_scene() {
    let s = story();
    assert_eq!(s.validate(), Ok(()));
    let mut st = GameState::new("start".to_string(), 100);
    for i in [1usize, 2, 1, 1, 2, 5, 0, 1] {
        let _ = ChooseCommand { index: i }.execute(&s, &mut st);
        assert!(s.scene_by_id(&st.current_scene).is_some());
    }
}
