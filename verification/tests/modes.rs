use hectic::controls::ControlsState;
use hectic::resources::{Mode, PlayingState, Stage};
use hectic::systems::{ControlMenu, TogglePaused};

fn key(name: &str) -> String {
    name.to_string()
}

fn texts(mode: &mut Mode, c: &ControlsState) -> Option<(String, Vec<(String, bool)>)> {
    mode.as_menu(c).map(|m| {
        (m.title.to_string(), m.items.iter().map(|i| (i.text.clone(), i.active)).collect())
    })
}

fn owned(v: &[(&str, bool)]) -> Vec<(String, bool)> {
    v.iter().map(|(t, a)| (t.to_string(), *a)).collect()
}

#[test]
fn default_mode_is_main_menu() {
    assert_eq!(Mode::default(), Mode::MainMenu { selected: 0 });
}

#[test]
fn menus_of_modes() {
    let c = ControlsState::default();
    let mut m = Mode::MainMenu { selected: 0 };
    assert_eq!(
        texts(&mut m, &c),
        Some(("Hectic".to_string(), owned(&[("Play", true), ("Controls", true), ("Quit", true)])))
    );
    let mut m = Mode::Paused { selected: 1, stage: Stage::One, state: PlayingState::Playing, multiplayer: false };
    assert_eq!(
        texts(&mut m, &c),
        Some(("Paused".to_string(), owned(&[("Resume", true), ("Main Menu", true)])))
    );
    let mut m = Mode::Stages { selected: 0, multiplayer: true };
    assert_eq!(
        texts(&mut m, &c),
        Some((
            "Stages".to_string(),
            owned(&[("Stage One", true), ("Stage Two", true), ("Mode: Multiplayer", true), ("Back", true)])
        ))
    );
    let mut m = Mode::Stages { selected: 0, multiplayer: false };
    assert_eq!(texts(&mut m, &c).unwrap().1[2].0, "Mode: Singleplayer");
    let mut m = Mode::StageComplete { stage: Stage::One, selected: 0, multiplayer: false };
    assert_eq!(
        texts(&mut m, &c),
        Some(("Stage\nComplete!".to_string(), owned(&[("Continue to next stage", true), ("Main Menu", true)])))
    );
    let mut m = Mode::StageComplete { stage: Stage::Two, selected: 1, multiplayer: false };
    assert_eq!(
        texts(&mut m, &c),
        Some(("Stage\nComplete!".to_string(), owned(&[("No Stage 3 yet!", false), ("Main Menu", true)])))
    );
    let mut m = Mode::StageLost { selected: 0 };
    assert_eq!(texts(&mut m, &c), Some(("Stage\nLost".to_string(), owned(&[("Main Menu", true)]))));
    let mut m = Mode::Controls { selected: 1 };
    let (title, items) = texts(&mut m, &c).unwrap();
    assert_eq!(title, "Controls");
    assert_eq!(items.len(), 28);
    let mut m = Mode::Playing { stage: Stage::One, state: PlayingState::Playing, multiplayer: false };
    assert!(texts(&mut m, &c).is_none());
    let mut m = Mode::Quit;
    assert!(texts(&mut m, &c).is_none());
}

#[test]
fn menu_selection_writes_back_to_mode() {
    let c = ControlsState::default();
    let mut m = Mode::Stages { selected: 0, multiplayer: false };
    {
        let mut menu = m.as_menu(&c).unwrap();
        menu.rotate_up();
    }
    assert_eq!(m, Mode::Stages { selected: 3, multiplayer: false });
}

#[test]
fn toggle_paused_pauses_and_resumes() {
    let mut c = ControlsState::default();
    let playing = Mode::Playing { stage: Stage::Two, state: PlayingState::Won { at: 0x4120_0000 }, multiplayer: true };
    let mut m = playing;
    c.press(&key("P"), true);
    TogglePaused.run(&mut c, &mut m);
    assert_eq!(m, Mode::Paused { selected: 0, stage: Stage::Two, state: PlayingState::Won { at: 0x4120_0000 }, multiplayer: true });
    assert!(!c.pause.pressed);
    // Without the toggle nothing happens.
    TogglePaused.run(&mut c, &mut m);
    assert!(matches!(m, Mode::Paused { .. }));
    c.press(&key("P"), false);
    c.press(&key("P"), true);
    TogglePaused.run(&mut c, &mut m);
    assert_eq!(m, playing);
    assert!(!c.pause.pressed);
}

#[test]
fn toggle_paused_ignores_menus() {
    let mut c = ControlsState::default();
    let mut m = Mode::MainMenu { selected: 2 };
    c.press(&key("P"), true);
    TogglePaused.run(&mut c, &mut m);
    assert_eq!(m, Mode::MainMenu { selected: 2 });
    assert!(!c.pause.pressed);
}

#[test]
fn toggle_paused_twice_resets_pause_selection() {
    let mut c = ControlsState::default();
    let mut m = Mode::Paused { selected: 1, stage: Stage::One, state: PlayingState::Playing, multiplayer: false };
    c.pause.pressed = true;
    TogglePaused.run(&mut c, &mut m);
    c.pause.pressed = true;
    TogglePaused.run(&mut c, &mut m);
    assert_eq!(m, Mode::Paused { selected: 0, stage: Stage::One, state: PlayingState::Playing, multiplayer: false });
}

#[test]
fn control_menu_moves_selection_and_releases_keys() {
    let mut c = ControlsState::default();
    let mut m = Mode::MainMenu { selected: 0 };
    c.press(&key("Down"), true);
    ControlMenu.run(&mut c, &mut m);
    assert_eq!(m, Mode::MainMenu { selected: 1 });
    assert!(!c.single_player.down.pressed);
    // player one shares the arrow keys but is not driven by the menu
    assert!(c.player_1.down.pressed);
    c.press(&key("Up"), true);
    ControlMenu.run(&mut c, &mut m);
    assert_eq!(m, Mode::MainMenu { selected: 0 });
    c.press(&key("Up"), true);
    ControlMenu.run(&mut c, &mut m);
    assert_eq!(m, Mode::MainMenu { selected: 2 });
}

#[test]
fn control_menu_choices() {
    let mut c = ControlsState::default();
    let mut fire = |m: Mode| {
        let mut m = m;
        c.single_player.fire.pressed = true;
        ControlMenu.run(&mut c, &mut m);
        assert!(!c.single_player.fire.pressed);
        m
    };
    assert_eq!(fire(Mode::MainMenu { selected: 0 }), Mode::Stages { selected: 0, multiplayer: false });
    assert_eq!(fire(Mode::MainMenu { selected: 1 }), Mode::Controls { selected: 0 });
    assert_eq!(fire(Mode::MainMenu { selected: 2 }), Mode::Quit);
    assert_eq!(
        fire(Mode::Stages { selected: 0, multiplayer: true }),
        Mode::Playing { stage: Stage::One, state: PlayingState::Playing, multiplayer: true }
    );
    assert_eq!(
        fire(Mode::Stages { selected: 1, multiplayer: false }),
        Mode::Playing { stage: Stage::Two, state: PlayingState::Playing, multiplayer: false }
    );
    assert_eq!(fire(Mode::Stages { selected: 2, multiplayer: false }), Mode::Stages { selected: 2, multiplayer: true });
    assert_eq!(fire(Mode::Stages { selected: 3, multiplayer: true }), Mode::MainMenu { selected: 0 });
    let paused = Mode::Paused { selected: 0, stage: Stage::Two, state: PlayingState::Lost { at: 7 }, multiplayer: true };
    assert_eq!(fire(paused), Mode::Playing { stage: Stage::Two, state: PlayingState::Lost { at: 7 }, multiplayer: true });
    let paused = Mode::Paused { selected: 1, stage: Stage::Two, state: PlayingState::Playing, multiplayer: true };
    assert_eq!(fire(paused), Mode::MainMenu { selected: 0 });
    assert_eq!(fire(Mode::Controls { selected: 27 }), Mode::MainMenu { selected: 1 });
    assert_eq!(fire(Mode::Controls { selected: 5 }), Mode::Controls { selected: 5 });
    assert_eq!(fire(Mode::StageLost { selected: 0 }), Mode::StageLost { selected: 0 });
    let done = Mode::StageComplete { stage: Stage::One, selected: 0, multiplayer: false };
    assert_eq!(fire(done), done);
}

#[test]
fn control_menu_skips_unselectable_item() {
    let mut c = ControlsState::default();
    let mut m = Mode::StageComplete { stage: Stage::Two, selected: 1, multiplayer: false };
    c.single_player.down.pressed = true;
    ControlMenu.run(&mut c, &mut m);
    assert_eq!(m, Mode::StageComplete { stage: Stage::Two, selected: 1, multiplayer: false });
    let mut m = Mode::Controls { selected: 27 };
    c.single_player.down.pressed = true;
    ControlMenu.run(&mut c, &mut m);
    // wraps past the "General:" heading to the pause line
    assert_eq!(m, Mode::Controls { selected: 1 });
    c.single_player.up.pressed = true;
    ControlMenu.run(&mut c, &mut m);
    assert_eq!(m, Mode::Controls { selected: 27 });
}

#[test]
fn control_menu_leaves_other_modes() {
    let mut c = ControlsState::default();
    let playing = Mode::Playing { stage: Stage::One, state: PlayingState::Playing, multiplayer: false };
    let mut m = playing;
    c.single_player.fire.pressed = true;
    ControlMenu.run(&mut c, &mut m);
    assert_eq!(m, playing);
    assert!(c.single_player.fire.pressed);
}

#[test]
fn down_and_fire_together_choose_the_new_item() {
    let mut c = ControlsState::default();
    let mut m = Mode::MainMenu { selected: 0 };
    c.single_player.down.pressed = true;
    c.single_player.fire.pressed = true;
    ControlMenu.run(&mut c, &mut m);
    assert_eq!(m, Mode::Controls { selected: 0 });
}

fn menu_modes() -> Vec<Mode> {
    vec![
        Mode::MainMenu { selected: 0 },
        Mode::Controls { selected: 1 },
        Mode::Stages { selected: 0, multiplayer: false },
        Mode::Stages { selected: 0, multiplayer: true },
        Mode::Paused { selected: 0, stage: Stage::One, state: PlayingState::Playing, multiplayer: false },
        Mode::StageComplete { stage: Stage::One, selected: 0, multiplayer: false },
        Mode::StageComplete { stage: Stage::Two, selected: 1, multiplayer: true },
        Mode::StageLost { selected: 0 },
    ]
}

#[test]
fn every_menu_has_a_selectable_item() {
    let c = ControlsState::default();
    for mode in menu_modes() {
        let mut m = mode;
        let menu = m.as_menu(&c).unwrap();
        assert!(!menu.items.is_empty());
        assert!(menu.items.iter().any(|i| i.active));
    }
}

#[test]
fn moves_land_on_selectable_items() {
    for mode in menu_modes() {
        for (down, up) in [(true, false), (false, true), (true, true)] {
            let mut c = ControlsState::default();
            let mut m = mode;
            for _ in 0..5 {
                c.single_player.down.pressed = down;
                c.single_player.up.pressed = up;
                ControlMenu.run(&mut c, &mut m);
                let probe_controls = ControlsState::default();
                let mut probe = m;
                let selected = match m {
                    Mode::MainMenu { selected }
                    | Mode::Controls { selected }
                    | Mode::Stages { selected, .. }
                    | Mode::Paused { selected, .. }
                    | Mode::StageComplete { selected, .. }
                    | Mode::StageLost { selected } => selected,
                    _ => unreachable!(),
                };
                let menu = probe.as_menu(&probe_controls).unwrap();
                assert!(selected < menu.items.len());
                assert!(menu.items[selected].active);
            }
        }
    }
}
