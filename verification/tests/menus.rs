use bevy_rpg::combat::{power_for_keys, sound_for, PowerType, SfxKind, SoundAsset};
use bevy_rpg::game_state::{
    apply_menu_action, in_multiplayer, loading_transition, main_menu_action, pause_menu_action,
    restart_transition, toggle_pause, GameMode, GameState, MainMenuButton, MenuAction,
    PauseMenuButton,
};
use bevy_rpg::save_ui::{
    save_slot_name, slot_disabled, slot_label, PendingSaveLoadAction, SaveLoadMode, SaveLoadUIState,
};

#[test]
fn escape_toggles_pause_both_ways() {
    assert_eq!(toggle_pause(true, false, GameState::Playing), Some(GameState::Paused));
    assert_eq!(toggle_pause(true, false, GameState::Paused), Some(GameState::Playing));
    assert_eq!(toggle_pause(true, false, GameState::MainMenu), None);
    assert_eq!(toggle_pause(true, false, GameState::GameOver), None);
    assert_eq!(toggle_pause(true, true, GameState::Playing), None);
    assert_eq!(toggle_pause(false, false, GameState::Playing), None);
}

#[test]
fn restart_and_loading_lead_to_play() {
    assert_eq!(restart_transition(true), Some(GameState::Playing));
    assert_eq!(restart_transition(false), None);
    assert_eq!(loading_transition(true, true), Some(GameState::Playing));
    assert_eq!(loading_transition(true, false), None);
    assert_eq!(loading_transition(false, true), None);
}

#[test]
fn multiplayer_only_when_set() {
    assert!(in_multiplayer(Some(GameMode::Multiplayer)));
    assert!(!in_multiplayer(Some(GameMode::SinglePlayer)));
    assert!(!in_multiplayer(None));
}

#[test]
fn main_menu_buttons() {
    assert_eq!(main_menu_action(MainMenuButton::NewGame), MenuAction::GoTo(GameState::Loading));
    assert_eq!(main_menu_action(MainMenuButton::LoadGame), MenuAction::OpenSaveLoad(SaveLoadMode::Load));
    assert_eq!(main_menu_action(MainMenuButton::Quit), MenuAction::Quit);
}

#[test]
fn pause_menu_buttons_are_ignored_under_the_slot_screen() {
    assert_eq!(pause_menu_action(true, PauseMenuButton::Resume), None);
    assert_eq!(pause_menu_action(false, PauseMenuButton::Resume), Some(MenuAction::GoTo(GameState::Playing)));
    assert_eq!(pause_menu_action(false, PauseMenuButton::SaveGame), Some(MenuAction::OpenSaveLoad(SaveLoadMode::Save)));
    assert_eq!(pause_menu_action(false, PauseMenuButton::LoadGame), Some(MenuAction::OpenSaveLoad(SaveLoadMode::Load)));
    assert_eq!(pause_menu_action(false, PauseMenuButton::MainMenu), Some(MenuAction::GoTo(GameState::MainMenu)));
    assert_eq!(pause_menu_action(false, PauseMenuButton::Quit), Some(MenuAction::Quit));
}

#[test]
fn opening_the_slot_screen_sets_its_mode() {
    let mut ui = SaveLoadUIState::default();
    assert!(!ui.active);
    assert_eq!(apply_menu_action(MenuAction::OpenSaveLoad(SaveLoadMode::Load), &mut ui), None);
    assert!(ui.active);
    assert_eq!(ui.mode, SaveLoadMode::Load);
    assert_eq!(apply_menu_action(MenuAction::GoTo(GameState::Playing), &mut ui), Some(GameState::Playing));
    assert!(ui.active);
}

#[test]
fn clicked_slot_is_acted_upon_once() {
    let mut ui = SaveLoadUIState::default();
    let mut pending = PendingSaveLoadAction::default();
    ui.open(SaveLoadMode::Save);
    ui.press_slot(&mut pending, 3);
    assert!(!ui.active);
    assert_eq!(pending.take_load(), None);
    assert_eq!(pending.take_save(), Some(3));
    assert_eq!(pending.take_save(), None);
    assert_eq!(pending.take_load(), None);
}

#[test]
fn load_click_waits_for_the_loader() {
    let mut ui = SaveLoadUIState::default();
    let mut pending = PendingSaveLoadAction::default();
    ui.open(SaveLoadMode::Load);
    ui.press_slot(&mut pending, 0);
    assert_eq!(pending.take_save(), None);
    assert_eq!(pending.take_load(), Some(0));
    ui.open(SaveLoadMode::Save);
    ui.close();
    assert!(!ui.active);
    assert_eq!(ui.mode, SaveLoadMode::Save);
}

#[test]
fn slot_buttons_show_number_and_time() {
    assert_eq!(slot_label(0, None), "Slot 1 - Empty");
    assert_eq!(slot_label(4, Some("03 Feb 2025, 09:15 PM")), "Slot 5 - 03 Feb 2025, 09:15 PM");
    assert_eq!(save_slot_name(1), "Slot 2");
    assert_eq!(SaveLoadMode::Save.title(), "SAVE GAME");
    assert_eq!(SaveLoadMode::Load.title(), "LOAD GAME");
}

#[test]
fn empty_slots_cannot_be_loaded() {
    assert!(slot_disabled(SaveLoadMode::Load, false));
    assert!(!slot_disabled(SaveLoadMode::Load, true));
    assert!(!slot_disabled(SaveLoadMode::Save, false));
}

#[test]
fn number_keys_switch_power() {
    assert_eq!(power_for_keys(false, false, false, false), None);
    assert_eq!(power_for_keys(false, true, false, true), Some(PowerType::Arcane));
    assert_eq!(power_for_keys(true, true, true, true), Some(PowerType::Fire));
    assert_eq!(power_for_keys(false, false, true, false), Some(PowerType::Shadow));
    assert_eq!(power_for_keys(false, false, false, true), Some(PowerType::Poison));
    assert_eq!(PowerType::default(), PowerType::Fire);
}

#[test]
fn fire_spells_have_their_own_sound() {
    assert_eq!(sound_for(SfxKind::PlayerShoot(PowerType::Fire)), SoundAsset::SpellFire);
    assert_eq!(sound_for(SfxKind::PlayerShoot(PowerType::Poison)), SoundAsset::SpellGeneric);
    assert_eq!(sound_for(SfxKind::EnemyShoot), SoundAsset::EnemyShoot);
    assert_eq!(sound_for(SfxKind::ButtonClick), SoundAsset::ButtonClick);
}
