//! The errors of command parsing, of play and of scenario validation.
use vstd::prelude::*;
use vstd::string::*;

verus! {

#[derive(Debug, PartialEq, Eq)]
pub enum ParseError {
    Empty,
    UnknownCommand(String),
    MissingArgument(String),
    InvalidNumber(String),
}

#[derive(Debug, PartialEq, Eq)]
pub enum GameError {
    InvalidChoice,
    MissingItem(String),
    UnknownScene(String),
    GameOver,
}

#[derive(Debug, PartialEq, Eq)]
pub enum ValidationError {
    StartSceneMissing(String),
    DuplicateSceneId(String),
    MissingScene(String),
}

/// A [`ParseError`] with its text taken as characters.
pub enum ParseErrorView {
    Empty,
    UnknownCommand(Seq<char>),
    MissingArgument(Seq<char>),
    InvalidNumber(Seq<char>),
}

/// A [`GameError`] with its text taken as characters.
pub enum GameErrorView {
    InvalidChoice,
    MissingItem(Seq<char>),
    UnknownScene(Seq<char>),
    GameOver,
}

/// A [`ValidationError`] with its text taken as characters.
pub enum ValidationErrorView {
    StartSceneMissing(Seq<char>),
    DuplicateSceneId(Seq<char>),
    MissingScene(Seq<char>),
}

impl View for ParseError {
    type V = ParseErrorView;

    open spec fn view(&self) -> ParseErrorView {
        match self {
            ParseError::Empty => ParseErrorView::Empty,
            ParseError::UnknownCommand(s) => ParseErrorView::UnknownCommand(s@),
            ParseError::MissingArgument(s) => ParseErrorView::MissingArgument(s@),
            ParseError::InvalidNumber(s) => ParseErrorView::InvalidNumber(s@),
        }
    }
}

impl View for GameError {
    type V = GameErrorView;

    open spec fn view(&self) -> GameErrorView {
        match self {
            GameError::InvalidChoice => GameErrorView::InvalidChoice,
            GameError::MissingItem(s) => GameErrorView::MissingItem(s@),
            GameError::UnknownScene(s) => GameErrorView::UnknownScene(s@),
            GameError::GameOver => GameErrorView::GameOver,
        }
    }
}

impl View for ValidationError {
    type V = ValidationErrorView;

    open spec fn view(&self) -> ValidationErrorView {
        match self {
            ValidationError::StartSceneMissing(s) => ValidationErrorView::StartSceneMissing(s@),
            ValidationError::DuplicateSceneId(s) => ValidationErrorView::DuplicateSceneId(s@),
            ValidationError::MissingScene(s) => ValidationErrorView::MissingScene(s@),
        }
    }
}

/// The text that describes a game error.
pub open spec fn game_error_text(e: GameErrorView) -> Seq<char> {
    match e {
        GameErrorView::InvalidChoice => "Invalid choice"@,
        GameErrorView::MissingItem(item) => "Missing required item: "@ + item,
        GameErrorView::UnknownScene(id) => "Unknown scene: "@ + id,
        GameErrorView::GameOver => "Game over"@,
    }
}

/// The text that describes a validation error.
pub open spec fn validation_error_text(e: ValidationErrorView) -> Seq<char> {
    match e {
        ValidationErrorView::StartSceneMissing(id) => "start_scene does not exist: "@ + id,
        ValidationErrorView::DuplicateSceneId(id) => "duplicate scene id: "@ + id,
        ValidationErrorView::MissingScene(id) => "missing scene for choice: "@ + id,
    }
}

fn prefixed(prefix: &str, rest: &String) -> (s: String)
    ensures
        s@ == prefix@ + rest@,
{
    let mut s = prefix.to_owned();
    s.append(rest.as_str());
    s
}

impl GameError {
    /// The error's text, as it is displayed.
    pub fn message(&self) -> (s: String)
        ensures
            s@ == game_error_text(self@),
    {
        match self {
            GameError::InvalidChoice => "Invalid choice".to_owned(),
            GameError::MissingItem(item) => prefixed("Missing required item: ", item),
            GameError::UnknownScene(id) => prefixed("Unknown scene: ", id),
            GameError::GameOver => "Game over".to_owned(),
        }
    }
}

impl ValidationError {
    /// The error's text, as it is displayed.
    pub fn message(&self) -> (s: String)
        ensures
            s@ == validation_error_text(self@),
    {
        match self {
            ValidationError::StartSceneMissing(id) => prefixed("start_scene does not exist: ", id),
            ValidationError::DuplicateSceneId(id) => prefixed("duplicate scene id: ", id),
            ValidationError::MissingScene(id) => prefixed("missing scene for choice: ", id),
        }
    }
}

} // verus!
