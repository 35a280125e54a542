use vstd::prelude::*;
use crate::save_ui::{SaveLoadMode, SaveLoadUIState};

verus! {

/// Top-level screens of the game.
#[derive(Clone, Copy, Debug, PartialEq, Eq, Structural, Hash)]
pub enum GameState {
    MainMenu,
    Loading,
    Playing,
    Paused,
    GameOver,
}

impl Default for GameState {
    fn default() -> (state: GameState)
        ensures
            state == GameState::MainMenu,
    {
        GameState::MainMenu
    }
}

/// Whether the game runs alone or against the multiplayer server.
#[derive(Clone, Copy, Debug, PartialEq, Eq, Structural)]
pub enum GameMode {
    SinglePlayer,
    Multiplayer,
}

/// Whether the current game mode, if one is set, is multiplayer.
pub fn in_multiplayer(mode: Option<GameMode>) -> (multiplayer: bool)
    ensures
        multiplayer == (mode == Some(GameMode::Multiplayer)),
{
    match mode {
        Some(GameMode::Multiplayer) => true,
        _ => false,
    }
}

/// Escape pauses a running game and resumes a paused one, except while the
/// save/load screen is open (escape then closes that screen instead).
pub open spec fn spec_toggle_pause(escape_pressed: bool, save_load_open: bool, current: GameState) -> Option<GameState> {
    if !escape_pressed || save_load_open {
        None
    } else {
        match current {
            GameState::Playing => Some(GameState::Paused),
            GameState::Paused => Some(GameState::Playing),
            _ => None,
        }
    }
}

/// The state escape switches to, if any.
pub fn toggle_pause(escape_pressed: bool, save_load_open: bool, current: GameState) -> (next: Option<GameState>)
    ensures
        next == spec_toggle_pause(escape_pressed, save_load_open, current),
{
    if !escape_pressed || save_load_open {
        return None;
    }
    match current {
        GameState::Playing => Some(GameState::Paused),
        GameState::Paused => Some(GameState::Playing),
        GameState::MainMenu => None,
        GameState::Loading => None,
        GameState::GameOver => None,
    }
}

/// On the game-over screen, R starts a new game.
pub fn restart_transition(restart_pressed: bool) -> (next: Option<GameState>)
    ensures
        next == (if restart_pressed { Some(GameState::Playing) } else { None }),
{
    if restart_pressed { Some(GameState::Playing) } else { None }
}

/// Loading ends once the character sheets are loaded and the map is built.
pub fn loading_transition(characters_loaded: bool, map_ready: bool) -> (next: Option<GameState>)
    ensures
        next == (if characters_loaded && map_ready { Some(GameState::Playing) } else { None }),
{
    if characters_loaded && map_ready { Some(GameState::Playing) } else { None }
}

/// Buttons of the main menu.
#[derive(Clone, Copy, Debug, PartialEq, Eq, Structural)]
pub enum MainMenuButton {
    NewGame,
    LoadGame,
    Quit,
}

/// Buttons of the pause menu.
#[derive(Clone, Copy, Debug, PartialEq, Eq, Structural)]
pub enum PauseMenuButton {
    Resume,
    SaveGame,
    LoadGame,
    MainMenu,
    Quit,
}

/// What pressing a menu button does.
#[derive(Clone, Copy, Debug, PartialEq, Eq, Structural)]
pub enum MenuAction {
    /// Switch to another screen.
    GoTo(GameState),
    /// Show the save/load screen in the given mode.
    OpenSaveLoad(SaveLoadMode),
    /// Leave the application.
    Quit,
}

/// Action of a main-menu button.
pub fn main_menu_action(button: MainMenuButton) -> (action: MenuAction)
    ensures
        action == (match button {
            MainMenuButton::NewGame => MenuAction::GoTo(GameState::Loading),
            MainMenuButton::LoadGame => MenuAction::OpenSaveLoad(SaveLoadMode::Load),
            MainMenuButton::Quit => MenuAction::Quit,
        }),
{
    match button {
        MainMenuButton::NewGame => MenuAction::GoTo(GameState::Loading),
        MainMenuButton::LoadGame => MenuAction::OpenSaveLoad(SaveLoadMode::Load),
        MainMenuButton::Quit => MenuAction::Quit,
    }
}

/// Action of a pause-menu button; while the save/load screen is open the
/// pause menu ignores its buttons.
pub fn pause_menu_action(save_load_open: bool, button: PauseMenuButton) -> (action: Option<MenuAction>)
    ensures
        save_load_open ==> action is None,
        !save_load_open ==> action == Some(match button {
            PauseMenuButton::Resume => MenuAction::GoTo(GameState::Playing),
            PauseMenuButton::SaveGame => MenuAction::OpenSaveLoad(SaveLoadMode::Save),
            PauseMenuButton::LoadGame => MenuAction::OpenSaveLoad(SaveLoadMode::Load),
            PauseMenuButton::MainMenu => MenuAction::GoTo(GameState::MainMenu),
            PauseMenuButton::Quit => MenuAction::Quit,
        }),
{
    if save_load_open {
        return None;
    }
    let action = match button {
        PauseMenuButton::Resume => MenuAction::GoTo(GameState::Playing),
        PauseMenuButton::SaveGame => MenuAction::OpenSaveLoad(SaveLoadMode::Save),
        PauseMenuButton::LoadGame => MenuAction::OpenSaveLoad(SaveLoadMode::Load),
        PauseMenuButton::MainMenu => MenuAction::GoTo(GameState::MainMenu),
        PauseMenuButton::Quit => MenuAction::Quit,
    };
    Some(action)
}

/// Carries out the part of a menu action that concerns the save/load screen;
/// returns the screen to switch to, if any. Quitting is left to the caller.
pub fn apply_menu_action(action: MenuAction, ui: &mut SaveLoadUIState) -> (next: Option<GameState>)
    ensures
        match action {
            MenuAction::GoTo(s) => next == Some(s) && *final(ui) == *old(ui),
            MenuAction::OpenSaveLoad(m) => next is None && final(ui).active && final(ui).mode == m,
            MenuAction::Quit => next is None && *final(ui) == *old(ui),
        },
{
    match action {
        MenuAction::GoTo(s) => Some(s),
        MenuAction::OpenSaveLoad(m) => {
            ui.open(m);
            None
        },
        MenuAction::Quit => None,
    }
}

/// Pausing and resuming are inverse: escape twice returns to the screen one
/// started from; escape never reaches or leaves any other screen, and does
/// nothing while the save/load screen is open.
pub proof fn lemma_pause_round_trip(current: GameState, save_load_open: bool)
    ensures
        spec_toggle_pause(true, false, current) matches Some(next)
            ==> spec_toggle_pause(true, false, next) == Some(current),
        spec_toggle_pause(true, save_load_open, current) matches Some(next)
            ==> (next == GameState::Playing || next == GameState::Paused),
        spec_toggle_pause(true, true, current) is None,
        spec_toggle_pause(false, save_load_open, current) is None,
{
}

} // verus!
