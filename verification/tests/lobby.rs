use bevy_rpg::enemy::{chase_action, repath_plan, state_for_action, ChaseAction, EnemyPath, RepathPlan};
use bevy_rpg::character::CharacterState;
use bevy_rpg::network::{
    connection_status_text, loading_text, online_player_names, online_players_text, PlayerListing,
};
use bevy_rpg::server::{username_or_fallback, validate_registration, RegistrationError};
use bevy_rpg::text::push_decimal;

fn listing(name: &str, is_online: bool, is_local: bool) -> PlayerListing {
    PlayerListing { username: name.to_string(), is_online, is_local }
}

#[test]
fn online_list_is_sorted_and_skips_offline_and_self() {
    let players = vec![
        listing("zoe", true, false),
        listing("me", true, true),
        listing("adam", true, false),
        listing("offline-olga", false, false),
        listing("Bob", true, false),
        listing("adam", true, false),
    ];
    let names = online_player_names(&players);
    assert_eq!(names, vec!["Bob", "adam", "adam", "zoe"]);
}

#[test]
fn online_list_text() {
    assert_eq!(online_players_text(&Vec::new()), "No other players online...");
    let names = vec!["ann".to_string(), "bo".to_string()];
    assert_eq!(online_players_text(&names), "Online players:\n- ann\n- bo");
}

#[test]
fn connection_status_messages() {
    assert_eq!(connection_status_text(false, false, None), "Connecting...");
    assert_eq!(connection_status_text(true, false, None), "Authenticating...");
    assert_eq!(connection_status_text(true, true, None), "Connected, waiting for player data...");
    assert_eq!(connection_status_text(true, true, Some("brave-red-fox")), "Connected as brave-red-fox");
}

#[test]
fn loading_screen_text() {
    assert_eq!(loading_text(true, Some((1, 2)), 3), "Starting...");
    assert_eq!(loading_text(false, Some((37, 100)), 3), "Generating world: 37/100");
    assert_eq!(loading_text(false, None, 0), "Loading");
    assert_eq!(loading_text(false, None, 3), "Loading...");
    assert_eq!(loading_text(false, None, 5), "Loading.");
}

#[test]
fn usernames_are_checked_before_renaming() {
    assert!(matches!(validate_registration("", false, true), Err(RegistrationError::EmptyName)));
    let long = "x".repeat(33);
    assert!(matches!(validate_registration(&long, false, true), Err(RegistrationError::NameTooLong)));
    assert!(validate_registration(&"x".repeat(32), false, true).is_ok());
    assert!(matches!(validate_registration("é".repeat(17).as_str(), false, true), Err(RegistrationError::NameTooLong)));
    match validate_registration("knight", true, true) {
        Err(e @ RegistrationError::NameTaken(_)) => assert_eq!(e.message(), "'knight' is already taken!"),
        _ => panic!("a taken name must be refused"),
    }
    assert!(matches!(validate_registration("knight", false, false), Err(RegistrationError::PlayerNotFound)));
    assert!(validate_registration("knight", false, true).is_ok());
}

#[test]
fn registration_messages() {
    assert_eq!(RegistrationError::EmptyName.message(), "Username must not be empty");
    assert_eq!(RegistrationError::NameTooLong.message(), "Username must be 32 characters or less");
    assert_eq!(RegistrationError::PlayerNotFound.message(), "Cannot rename: player not found. Connect first.");
}

#[test]
fn fallback_username_uses_the_time() {
    assert_eq!(username_or_fallback(Some("quiet-green-owl".to_string()), 5), "quiet-green-owl");
    assert_eq!(username_or_fallback(None, 1_700_000_000_123_456), "player-1700000000123456");
    assert_eq!(username_or_fallback(None, 0), "player-0");
    assert_eq!(username_or_fallback(None, -42), "player--42");
    assert_eq!(username_or_fallback(None, i64::MIN), format!("player-{}", i64::MIN));
}

#[test]
fn decimal_notation_matches_std() {
    for n in [0u64, 9, 10, 99, 100, 12345, u64::MAX] {
        let mut s = String::from("n=");
        push_decimal(&mut s, n);
        assert_eq!(s, format!("n={}", n));
    }
}

#[test]
fn new_route_skips_its_starting_point() {
    let mut path: EnemyPath<(i32, i32)> = EnemyPath::default();
    assert!(!path.has_path());
    assert_eq!(path.current_waypoint(), None);
    path.set_path(vec![(0, 0), (1, 0), (2, 0)], |_a, _b| false);
    assert_eq!(path.waypoints, vec![(1, 0), (2, 0)]);
    assert_eq!(path.current_waypoint(), Some((1, 0)));
    assert!(!path.advance());
    assert_eq!(path.current_waypoint(), Some((2, 0)));
    assert!(path.advance());
    assert!(!path.has_path());
}

#[test]
fn single_point_route_is_kept_whole() {
    let mut path: EnemyPath<(i32, i32)> = EnemyPath::default();
    path.set_path(vec![(4, 4)], |_a, _b| true);
    assert_eq!(path.waypoints, vec![(4, 4)]);
    assert_eq!(path.current_index, 0);
}

#[test]
fn nearby_replan_keeps_the_current_route() {
    let mut path: EnemyPath<(i32, i32)> = EnemyPath::default();
    path.set_path(vec![(0, 0), (10, 0), (20, 0)], |_a, _b| false);
    path.advance();
    let near = |a: (i32, i32), b: (i32, i32)| (a.0 - b.0).abs() + (a.1 - b.1).abs() < 3;
    path.set_path(vec![(19, 0), (21, 1), (30, 0)], near);
    assert_eq!(path.waypoints, vec![(10, 0), (20, 0)]);
    assert_eq!(path.current_index, 1);
    path.set_path(vec![(19, 0), (25, 5), (30, 0)], near);
    assert_eq!(path.waypoints, vec![(25, 5), (30, 0)]);
    assert_eq!(path.current_index, 0);
}

#[test]
fn enemies_rest_attack_or_pursue() {
    assert_eq!(chase_action(CharacterState::Walking, false, true, true), ChaseAction::Rest);
    assert_eq!(chase_action(CharacterState::Walking, true, true, true), ChaseAction::Attack);
    assert_eq!(chase_action(CharacterState::Walking, true, false, true), ChaseAction::Pursue);
    assert_eq!(chase_action(CharacterState::Idle, true, false, true), ChaseAction::Attack);
    assert_eq!(chase_action(CharacterState::Idle, true, false, false), ChaseAction::Pursue);
    assert_eq!(state_for_action(ChaseAction::Pursue), CharacterState::Walking);
    assert_eq!(state_for_action(ChaseAction::Attack), CharacterState::Idle);
    assert_eq!(state_for_action(ChaseAction::Rest), CharacterState::Idle);
}

#[test]
fn routes_are_planned_then_refreshed() {
    assert_eq!(repath_plan(false, false), RepathPlan::Plan);
    assert_eq!(repath_plan(false, true), RepathPlan::Plan);
    assert_eq!(repath_plan(true, true), RepathPlan::Replan);
    assert_eq!(repath_plan(true, false), RepathPlan::Keep);
}
