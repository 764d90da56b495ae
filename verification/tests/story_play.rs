use serde_yaml::Value;
use tp2::commands::{ChooseCommand, GameCommand};
use tp2::engine::{enter_scene, format_scene, CommandOutcome};
use tp2::errors::{GameError, ValidationError};
use tp2::scenario::{Choice, Ending, Scenario, Scene};
use tp2::state::GameState;

const STORY: &str = r#"
start_scene: entrance
initial_hp: 10
scenes:
  - id: entrance
    title: Porte Principale
    text: La pluie frappe les vitres du vieux manoir.
    choices:
      - label: Entrer dans le hall
        next: hall
      - label: Renoncer et partir dans la rue
        next: street
  - id: street
    title: La Rue
    text: Vous repartez sous la pluie.
    ending: escape
  - id: hall
    title: Le Hall
    text: Un grand hall plongé dans le noir.
    choices:
      - label: Prendre le couloir
        next: corridor
      - label: Descendre à la cave
        next: collapse
      - label: Franchir le portique de sécurité
        next: vault
        required_item: badge
  - id: corridor
    title: Le Couloir
    text: Un long couloir grince sous vos pas.
    choices:
      - label: Revenir dans le hall
        next: hall
      - label: Entrer dans le bureau
        next: office
      - label: Monter sur le toit
        next: roof
        required_item: badge
  - id: office
    title: Le Bureau
    text: Un badge traîne sur le bureau, près d'un clou rouillé.
    found_item: badge
    hp_delta: -2
    choices:
      - label: Revenir dans le hall
        next: hall
  - id: collapse
    title: Effondrement
    text: Le plancher cède sous vos pieds.
    hp_delta: -5
    ending: defeat
  - id: vault
    title: La Salle Forte
    text: Le trésor est là.
    ending: victory
  - id: roof
    title: Le Toit
    text: Un hélicoptère vous attend.
    ending: victory
"#;

fn text_field(v: &Value, key: &str) -> String {
    v.get(key).and_then(Value::as_str).expect(key).to_string()
}

fn optional_text(v: &Value, key: &str) -> Option<String> {
    v.get(key).and_then(Value::as_str).map(|s| s.to_string())
}

fn ending_of(v: &Value) -> Option<Ending> {
    match v.get("ending").and_then(Value::as_str) {
        Some("victory") => Some(Ending::Victory),
        Some("escape") => Some(Ending::Escape),
        Some("defeat") => Some(Ending::Defeat),
        Some(other) => panic!("unknown ending {other}"),
        None => None,
    }
}

fn choice_of(v: &Value) -> Choice {
    Choice {
        label: text_field(v, "label"),
        next: text_field(v, "next"),
        required_item: optional_text(v, "required_item"),
    }
}

fn scene_of(v: &Value) -> Scene {
    let choices = match v.get("choices").and_then(Value::as_sequence) {
        Some(list) => list.iter().map(choice_of).collect(),
        None => Vec::new(),
    };
    Scene {
        id: text_field(v, "id"),
        title: text_field(v, "title"),
        text: text_field(v, "text"),
        choices,
        found_item: optional_text(v, "found_item"),
        hp_delta: v.get("hp_delta").and_then(Value::as_i64).map(|d| d as i32),
        ending: ending_of(v),
    }
}

fn scenario_from_yaml(yaml: &str) -> Scenario {
    let v: Value = serde_yaml::from_str(yaml).expect("parse yaml");
    Scenario {
        start_scene: text_field(&v, "start_scene"),
        initial_hp: v.get("initial_hp").and_then(Value::as_i64).expect("initial_hp") as i32,
        scenes: v
            .get("scenes")
            .and_then(Value::as_sequence)
            .expect("scenes")
            .iter()
            .map(scene_of)
            .collect(),
    }
}

fn load_story() -> Scenario {
    let scenario = scenario_from_yaml(STORY);
    scenario.validate().expect("valid story");
    scenario
}

#[test]
fn path_to_victory() {
    let scenario = load_story();
    let mut state = GameState::new(scenario.start_scene.clone(), scenario.initial_hp);
    enter_scene(&scenario, &mut state).expect("enter start");

    let steps = [1, 1, 2, 1, 1, 3];
    let mut outcome = CommandOutcome::Continue;
    for step in steps {
        let cmd = ChooseCommand { index: step };
        outcome = cmd.execute(&scenario, &mut state).expect("choose");
    }

    match outcome {
        CommandOutcome::SceneEnded(ending) => {
            assert_eq!(ending.as_label(), "Victory");
        }
        _ => panic!("expected ending"),
    }
}

#[test]
fn invalid_choice() {
    let scenario = load_story();
    let mut state = GameState::new(scenario.start_scene.clone(), scenario.initial_hp);
    enter_scene(&scenario, &mut state).expect("enter start");

    let cmd = ChooseCommand { index: 99 };
    let err = cmd.execute(&scenario, &mut state).unwrap_err();
    assert_eq!(err, GameError::InvalidChoice);
}

#[test]
fn missing_item() {
    let scenario = load_story();
    let mut state = GameState::new("hall".to_string(), scenario.initial_hp);
    enter_scene(&scenario, &mut state).expect("enter hall");

    let cmd = ChooseCommand { index: 3 };
    let err = cmd.execute(&scenario, &mut state).unwrap_err();
    assert_eq!(err, GameError::MissingItem("badge".to_string()));
}

#[test]
fn hp_reaches_zero() {
    let scenario = load_story();
    let mut state = GameState::new("collapse".to_string(), 1);
    let err = enter_scene(&scenario, &mut state).unwrap_err();
    assert_eq!(err, GameError::GameOver);
}

#[test]
fn invalid_scenario_validation() {
    let yaml = r#"
start_scene: missing
initial_hp: 10
scenes:
  - id: start
    title: Start
    text: text
    choices: []
"#;
    let scenario: Scenario = scenario_from_yaml(yaml);
    let err = scenario.validate().unwrap_err();
    assert!(matches!(err, ValidationError::StartSceneMissing(_)));
}

#[test]
fn validation_duplicate_scene_ids() {
    let yaml = r#"
start_scene: start
initial_hp: 10
scenes:
  - id: start
    title: A
    text: a
    choices: []
  - id: start
    title: B
    text: b
    choices: []
"#;
    let scenario: Scenario = scenario_from_yaml(yaml);
    let err = scenario.validate().unwrap_err();
    assert!(matches!(err, ValidationError::DuplicateSceneId(_)));
}

#[test]
fn validation_missing_choice_target() {
    let yaml = r#"
start_scene: start
initial_hp: 10
scenes:
  - id: start
    title: A
    text: a
    choices:
      - label: Go
        next: missing
"#;
    let scenario: Scenario = scenario_from_yaml(yaml);
    let err = scenario.validate().unwrap_err();
    assert!(matches!(err, ValidationError::MissingScene(_)));
}

#[test]
fn look_renders_scene_text_and_choices() {
    let scenario = load_story();
    let state = GameState::new("entrance".to_string(), scenario.initial_hp);
    let output = format_scene(&scenario, &state).expect("format scene");
    assert!(output.contains("Porte Principale"));
    assert!(output.contains("La pluie frappe les vitres"));
    assert!(output.contains("1. Entrer dans le hall"));
    assert!(output.contains("2. Renoncer et partir dans la rue"));
}
