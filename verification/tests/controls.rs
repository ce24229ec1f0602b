use hectic::controls::{ControlsState, KeyState, Player};

fn key(name: &str) -> String {
    name.to_string()
}

#[test]
fn default_bindings() {
    let c = ControlsState::default();
    assert_eq!(c.pause.key, "P");
    assert_eq!(c.debug.key, "Semicolon");
    assert_eq!(c.single_player.up.key, "Up");
    assert_eq!(c.single_player.fire.key, "Z");
    assert_eq!(c.single_player.bomb.key, "X");
    assert_eq!(c.single_player.slow_movement.key, "LShift");
    assert_eq!(c.player_1.up.key, "Up");
    assert_eq!(c.player_1.fire.key, "Slash");
    assert_eq!(c.player_1.bomb.key, "Period");
    assert_eq!(c.player_1.slow_movement.key, "RShift");
    assert_eq!(c.player_2.up.key, "W");
    assert_eq!(c.player_2.left.key, "A");
    assert_eq!(c.player_2.right.key, "D");
    assert_eq!(c.player_2.down.key, "S");
    assert_eq!(c.player_2.fire.key, "V");
    assert_eq!(c.player_2.bomb.key, "B");
    assert_eq!(c.player_2.slow_movement.key, "N");
    assert!(!c.pause.pressed && !c.debug.pressed && !c.single_player.up.pressed);
}

#[test]
fn key_state_new_is_released() {
    let k = KeyState::new(key("Q"));
    assert_eq!(k.key, "Q");
    assert!(!k.pressed);
}

#[test]
fn press_follows_key_for_all_players() {
    let mut c = ControlsState::default();
    c.press(&key("Up"), true);
    assert!(c.single_player.up.pressed);
    assert!(c.player_1.up.pressed);
    assert!(!c.player_2.up.pressed);
    assert!(!c.single_player.down.pressed);
    c.press(&key("Up"), false);
    assert!(!c.single_player.up.pressed);
    assert!(!c.player_1.up.pressed);
}

#[test]
fn press_other_key_changes_nothing() {
    let mut c = ControlsState::default();
    c.press(&key("W"), true);
    assert!(c.player_2.up.pressed);
    c.press(&key("Q"), true);
    assert!(c.player_2.up.pressed);
    assert!(!c.single_player.up.pressed);
    assert!(!c.pause.pressed);
}

#[test]
fn pause_toggles_on_key_down_only() {
    let mut c = ControlsState::default();
    c.press(&key("P"), true);
    assert!(c.pause.pressed);
    c.press(&key("P"), false);
    assert!(c.pause.pressed);
    c.press(&key("P"), true);
    assert!(!c.pause.pressed);
    c.press(&key("Semicolon"), true);
    assert!(c.debug.pressed);
}

#[test]
fn press_release_twice_is_release_once() {
    let mut a = ControlsState::default();
    a.press(&key("Up"), true);
    a.press(&key("P"), true);
    let mut b = ControlsState::default();
    b.press(&key("Up"), true);
    b.press(&key("P"), true);
    for _ in 0..2 {
        a.press(&key("P"), true);
        a.press(&key("P"), false);
    }
    b.press(&key("P"), false);
    assert_eq!(a.pause.pressed, b.pause.pressed);
    assert!(a.pause.pressed);
    assert_eq!(a.single_player.up.pressed, b.single_player.up.pressed);
}

#[test]
fn get_and_get_mut_pick_the_player() {
    let mut c = ControlsState::default();
    assert_eq!(c.get(Player::Single).fire.key, "Z");
    assert_eq!(c.get(Player::One).fire.key, "Slash");
    assert_eq!(c.get(Player::Two).fire.key, "V");
    c.get_mut(Player::Two).fire.pressed = true;
    assert!(c.player_2.fire.pressed);
    assert!(!c.single_player.fire.pressed);
    assert!(!c.player_1.fire.pressed);
}

#[test]
fn player_items_list_the_keys() {
    let c = ControlsState::default();
    let items = c.player_2.as_items();
    let texts: Vec<&str> = items.iter().map(|i| i.text.as_str()).collect();
    assert_eq!(
        texts,
        vec!["up: W", "left: A", "right: D", "down: S", "fire: V", "bomb: B", "slow movement: N"]
    );
    assert!(items.iter().all(|i| i.active));
}

#[test]
fn controls_items_layout() {
    let c = ControlsState::default();
    let items = c.as_items();
    assert_eq!(items.len(), 28);
    assert_eq!(items[0].text, "General:");
    assert!(!items[0].active);
    assert_eq!(items[1].text, "pause: P");
    assert_eq!(items[2].text, "debug: Semicolon");
    assert_eq!(items[3].text, "Single Player:");
    assert!(!items[3].active);
    assert_eq!(items[4].text, "up: Up");
    assert_eq!(items[10].text, "slow movement: LShift");
    assert_eq!(items[11].text, "Player One (Multiplayer):");
    assert_eq!(items[16].text, "fire: Slash");
    assert_eq!(items[19].text, "Player Two (Multiplayer):");
    assert_eq!(items[20].text, "up: W");
    assert_eq!(items[27].text, "Back");
    assert!(items[27].active);
}
