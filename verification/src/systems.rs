use vstd::prelude::*;
use crate::controls::{ControlsState, PlayerControlsState, KeyState, Player};
use crate::menu::{
    rotated_down, rotated_up, lemma_actives_views, lemma_rotated_down_selectable,
    lemma_rotated_up_selectable, is_next_down, is_next_up, lemma_next_down_unique,
    lemma_next_up_unique, lemma_next_down_exists_from_rotation, lemma_next_up_exists_from_rotation,
};
use vstd::arithmetic::div_mod::lemma_mod_bound;
use crate::resources::{Mode, Stage, PlayingState, lemma_menus_selectable};

verus! {

/// The mode after the pause key was pressed: a stage being played is
/// paused with the first item of the pause menu selected, a paused stage
/// is resumed, and any other mode stays.
pub open spec fn pause_toggled(mode: Mode) -> Mode {
    match mode {
        Mode::Playing { stage, state, multiplayer } =>
            Mode::Paused { selected: 0, stage, state, multiplayer },
        Mode::Paused { stage, state, multiplayer, .. } =>
            Mode::Playing { stage, state, multiplayer },
        _ => mode,
    }
}

/// Pauses and resumes the game when the pause toggle is on, and switches
/// the toggle off.
pub struct TogglePaused;

impl TogglePaused {
    pub fn run(&mut self, ctrl_state: &mut ControlsState, mode: &mut Mode)
        ensures
            old(ctrl_state).pause.pressed ==> {
                &&& *final(mode) == pause_toggled(*old(mode))
                &&& *final(ctrl_state) == (ControlsState {
                    pause: KeyState { pressed: false, ..old(ctrl_state).pause },
                    ..*old(ctrl_state)
                })
            },
            !old(ctrl_state).pause.pressed ==> {
                &&& *final(mode) == *old(mode)
                &&& *final(ctrl_state) == *old(ctrl_state)
            },
    {
        if ctrl_state.pause.pressed {
            *mode = match *mode {
                Mode::Playing { stage, state, multiplayer } =>
                    Mode::Paused { selected: 0, stage, state, multiplayer },
                Mode::Paused { stage, state, multiplayer, .. } =>
                    Mode::Playing { stage, state, multiplayer },
                _ => *mode,
            };
            ctrl_state.pause.pressed = false;
        }
    }
}

/// Pressing pause twice on a stage being played comes back to it; so does
/// pressing it twice on the pause menu while its first item is selected.
pub proof fn lemma_pause_twice(mode: Mode)
    requires
        mode is Playing || (mode is Paused && mode.selection() == 0),
    ensures
        pause_toggled(pause_toggled(mode)) == mode,
{
}

/// With the pause toggle on, every stage being played is paused, with the
/// first item of the pause menu selected and its stage, state and
/// multiplayer setting kept; every paused stage is resumed with them kept;
/// every other mode stays.
pub proof fn lemma_pause_pauses_and_resumes(
    mode: Mode,
    selected: usize,
    stage: Stage,
    state: PlayingState,
    multiplayer: bool,
)
    ensures
        pause_toggled(Mode::Playing { stage, state, multiplayer })
            == (Mode::Paused { selected: 0, stage, state, multiplayer }),
        pause_toggled(Mode::Paused { selected, stage, state, multiplayer })
            == (Mode::Playing { stage, state, multiplayer }),
        !(mode is Playing || mode is Paused) ==> pause_toggled(mode) == mode,
{
}

/// The mode that choosing the selected item of the mode's menu leads to;
/// `last` is the index of the menu's last item.
pub open spec fn chosen(mode: Mode, last: usize) -> Mode {
    match mode {
        Mode::Paused { selected, stage, state, multiplayer } =>
            if selected == 0 {
                Mode::Playing { stage, state, multiplayer }
            } else {
                Mode::MainMenu { selected: 0 }
            },
        Mode::MainMenu { selected } =>
            if selected == 0 {
                Mode::Stages { selected: 0, multiplayer: false }
            } else if selected == 1 {
                Mode::Controls { selected: 0 }
            } else {
                Mode::Quit
            },
        Mode::Stages { selected, multiplayer } =>
            if selected == 0 {
                Mode::Playing { stage: Stage::One, state: PlayingState::Playing, multiplayer }
            } else if selected == 1 {
                Mode::Playing { stage: Stage::Two, state: PlayingState::Playing, multiplayer }
            } else if selected == 2 {
                Mode::Stages { selected, multiplayer: !multiplayer }
            } else {
                Mode::MainMenu { selected: 0 }
            },
        Mode::Controls { selected } =>
            if selected == last { Mode::MainMenu { selected: 1 } } else { mode },
        _ => mode,
    }
}

/// The single player's controls with the up, down and fire keys let go.
pub open spec fn menu_keys_released(c: PlayerControlsState) -> PlayerControlsState {
    PlayerControlsState {
        up: KeyState { pressed: false, ..c.up },
        down: KeyState { pressed: false, ..c.down },
        fire: KeyState { pressed: false, ..c.fire },
        ..c
    }
}

/// The selection of the mode's menu after the single player's down and up
/// keys moved it.
pub open spec fn moved_selection(mode: Mode, controls: ControlsState) -> usize {
    let active = mode.menu_actives(controls);
    let single = controls.single_player;
    let s0 = mode.selection() as int;
    let s1 = if single.down.pressed { rotated_down(active, s0) } else { s0 };
    let s2 = if single.up.pressed { rotated_up(active, s1) } else { s1 };
    s2 as usize
}

/// The mode after the single player's keys acted on its menu: down and
/// up move the selection, and fire chooses the selected item.
pub open spec fn after_menu_input(mode: Mode, controls: ControlsState) -> Mode {
    let moved = mode.with_selection(moved_selection(mode, controls));
    if controls.single_player.fire.pressed {
        chosen(moved, (mode.menu_items(controls).len() - 1) as usize)
    } else {
        moved
    }
}

/// The inputs on which driving the mode's menu is defined: the selection
/// can be moved down from where it is (it is not the largest index), moved
/// up (it is at most the number of items), and where fire chooses by index
/// on the pause, main and stages menus, it is one of their items.
pub open spec fn menu_input_accepted(mode: Mode, controls: ControlsState) -> bool {
    let s = mode.selection();
    let n = mode.menu_items(controls).len();
    let single = controls.single_player;
    mode.has_menu() ==> {
        &&& single.down.pressed ==> s < usize::MAX
        &&& (!single.down.pressed && single.up.pressed) ==> s <= n
        &&& (!single.down.pressed && !single.up.pressed && single.fire.pressed
            && (mode is Paused || mode is MainMenu || mode is Stages)) ==> s < n
    }
}

/// A selection on one of the menu's items is accepted whatever keys are
/// held, and after the keys moved it, it stands on a selectable item.
pub proof fn lemma_menu_input_on_valid_selection(mode: Mode, controls: ControlsState)
    requires
        mode.selection_valid(controls),
    ensures
        menu_input_accepted(mode, controls),
        mode.has_menu() && (controls.single_player.down.pressed || controls.single_player.up.pressed)
            ==> mode.menu_actives(controls)[moved_selection(mode, controls) as int],
{
    if mode.has_menu() {
        lemma_menus_selectable(mode, controls);
        let active = mode.menu_actives(controls);
        let s0 = mode.selection() as int;
        lemma_rotated_down_selectable(active, s0);
        let s1 = if controls.single_player.down.pressed { rotated_down(active, s0) } else { s0 };
        lemma_rotated_up_selectable(active, s1);
    }
}

/// Choosing an item, with fire and neither up nor down held: on the stages
/// menu the first two items start stage one and stage two, fresh and in the
/// menu's own multiplayer setting, the third flips that setting and the
/// fourth goes back to the main menu; on the main menu the items lead to
/// the stages menu (singleplayer), the controls menu and quitting; on the
/// pause menu the first resumes the paused stage as it was and the second
/// goes to the main menu; `Back`, the last line of the controls menu, goes
/// to the main menu with `Controls` selected, and any other line stays; the
/// menus after a stage do nothing. Every new menu starts on its first item
/// but the main menu reached from the controls.
pub proof fn lemma_choosing(
    controls: ControlsState,
    selected: usize,
    stage: Stage,
    state: PlayingState,
    multiplayer: bool,
)
    requires
        controls.single_player.fire.pressed,
        !controls.single_player.down.pressed,
        !controls.single_player.up.pressed,
    ensures
        after_menu_input(Mode::Stages { selected: 0, multiplayer }, controls)
            == (Mode::Playing { stage: Stage::One, state: PlayingState::Playing, multiplayer }),
        after_menu_input(Mode::Stages { selected: 1, multiplayer }, controls)
            == (Mode::Playing { stage: Stage::Two, state: PlayingState::Playing, multiplayer }),
        after_menu_input(Mode::Stages { selected: 2, multiplayer }, controls)
            == (Mode::Stages { selected: 2, multiplayer: !multiplayer }),
        after_menu_input(Mode::Stages { selected: 3, multiplayer }, controls)
            == (Mode::MainMenu { selected: 0 }),
        after_menu_input(Mode::MainMenu { selected: 0 }, controls)
            == (Mode::Stages { selected: 0, multiplayer: false }),
        after_menu_input(Mode::MainMenu { selected: 1 }, controls) == (Mode::Controls { selected: 0 }),
        after_menu_input(Mode::MainMenu { selected: 2 }, controls) == Mode::Quit,
        after_menu_input(Mode::Paused { selected: 0, stage, state, multiplayer }, controls)
            == (Mode::Playing { stage, state, multiplayer }),
        after_menu_input(Mode::Paused { selected: 1, stage, state, multiplayer }, controls)
            == (Mode::MainMenu { selected: 0 }),
        after_menu_input(Mode::Controls { selected: 27 }, controls) == (Mode::MainMenu { selected: 1 }),
        selected != 27 ==> after_menu_input(Mode::Controls { selected }, controls)
            == (Mode::Controls { selected }),
        after_menu_input(Mode::StageComplete { stage, selected, multiplayer }, controls)
            == (Mode::StageComplete { stage, selected, multiplayer }),
        after_menu_input(Mode::StageLost { selected }, controls) == (Mode::StageLost { selected }),
{
    crate::controls::lemma_controls_menu_layout(controls, 0, 0);
}

/// Without fire, the keys only move the selection: down alone moves it to
/// the first selectable item below it, wrapping round, and up alone to the
/// first selectable item above it; the menu stays the same menu. Nothing
/// held leaves the mode as it is.
pub proof fn lemma_moving(mode: Mode, controls: ControlsState)
    requires
        mode.has_menu(),
        !controls.single_player.fire.pressed,
    ensures
        ({
            let after = after_menu_input(mode, controls);
            let active = mode.menu_actives(controls);
            let s = mode.selection() as int;
            let n = active.len() as int;
            &&& after.has_menu()
            &&& after.menu_items(controls) == mode.menu_items(controls)
            &&& after.with_selection(mode.selection()) == mode
            &&& (controls.single_player.down.pressed && !controls.single_player.up.pressed
                && s < usize::MAX) ==> exists|k: int|
                #[trigger] is_next_down(active, s, k) && after.selection() == (s + k) % n
            &&& (controls.single_player.up.pressed && !controls.single_player.down.pressed
                && s <= n) ==> exists|k: int|
                #[trigger] is_next_up(active, s, k) && after.selection() == (s - k) % n
            &&& (!controls.single_player.up.pressed && !controls.single_player.down.pressed)
                ==> after == mode
        }),
{
    let active = mode.menu_actives(controls);
    let s = mode.selection() as int;
    let n = active.len() as int;
    lemma_menus_selectable(mode, controls);
    if controls.single_player.down.pressed && !controls.single_player.up.pressed {
        lemma_next_down_exists_from_rotation(active, s);
        let k = choose|k: int| is_next_down(active, s, k);
        lemma_next_down_unique(active, s, k);
        lemma_mod_bound(s + k, n);
    }
    if controls.single_player.up.pressed && !controls.single_player.down.pressed {
        lemma_next_up_exists_from_rotation(active, s);
        let k = choose|k: int| is_next_up(active, s, k);
        lemma_next_up_unique(active, s, k);
        lemma_mod_bound(s - k, n);
    }
}

/// Driving a menu lets go of the single player's up, down and fire keys
/// and of nothing else; no key changes its binding.
pub proof fn lemma_menu_releases_keys(controls: ControlsState)
    ensures
        ({
            let after = controls.with_player(Player::Single, menu_keys_released(controls.single_player));
            let before = controls.single_player;
            &&& !after.single_player.up.pressed
            &&& !after.single_player.down.pressed
            &&& !after.single_player.fire.pressed
            &&& after.single_player.key_names() == before.key_names()
            &&& after.single_player.left == before.left
            &&& after.single_player.right == before.right
            &&& after.single_player.bomb == before.bomb
            &&& after.single_player.slow_movement == before.slow_movement
            &&& after.pause == controls.pause
            &&& after.debug == controls.debug
            &&& after.player_1 == controls.player_1
            &&& after.player_2 == controls.player_2
        }),
{
}

/// Lets the single player's keys drive the menu that the mode shows, and
/// lets go of the keys it used.
pub struct ControlMenu;

impl ControlMenu {
    pub fn run(&mut self, ctrl_state: &mut ControlsState, mode: &mut Mode)
        requires
            menu_input_accepted(*old(mode), *old(ctrl_state)),
        ensures
            old(mode).has_menu() ==> {
                &&& *final(mode) == after_menu_input(*old(mode), *old(ctrl_state))
                &&& *final(ctrl_state) == old(ctrl_state).with_player(
                    Player::Single,
                    menu_keys_released(old(ctrl_state).single_player),
                )
            },
            !old(mode).has_menu() ==> {
                &&& *final(mode) == *old(mode)
                &&& *final(ctrl_state) == *old(ctrl_state)
            },
            old(mode).selection_valid(*old(ctrl_state))
                ==> final(mode).selection_valid(*final(ctrl_state)),
    {
        let ghost mode0 = *mode;
        let ghost ctrl0 = *ctrl_state;
        let menu = mode.as_menu(ctrl_state);
        if let Some(mut menu) = menu {
            proof {
                lemma_menus_selectable(mode0, ctrl0);
                lemma_actives_views(menu.items@);
            }
            let player_ctrl_state = ctrl_state.get_mut(Player::Single);
            if player_ctrl_state.down.pressed {
                menu.rotate_down();
                player_ctrl_state.down.pressed = false;
            }
            if player_ctrl_state.up.pressed {
                menu.rotate_up();
                player_ctrl_state.up.pressed = false;
            }
            let last_item = menu.items.len() - 1;
            if player_ctrl_state.fire.pressed {
                *mode = match *mode {
                    Mode::Paused { selected, stage, state, multiplayer } => {
                        if selected == 0 {
                            Mode::Playing { stage, state, multiplayer }
                        } else {
                            Mode::MainMenu { selected: 0 }
                        }
                    },
                    Mode::MainMenu { selected } => {
                        if selected == 0 {
                            Mode::Stages { selected: 0, multiplayer: false }
                        } else if selected == 1 {
                            Mode::Controls { selected: 0 }
                        } else {
                            Mode::Quit
                        }
                    },
                    Mode::Stages { selected, multiplayer } => {
                        if selected == 0 {
                            Mode::Playing { stage: Stage::One, state: PlayingState::Playing, multiplayer }
                        } else if selected == 1 {
                            Mode::Playing { stage: Stage::Two, state: PlayingState::Playing, multiplayer }
                        } else if selected == 2 {
                            Mode::Stages { selected, multiplayer: !multiplayer }
                        } else {
                            Mode::MainMenu { selected: 0 }
                        }
                    },
                    Mode::Controls { selected } => {
                        if selected == last_item {
                            Mode::MainMenu { selected: 1 }
                        } else {
                            *mode
                        }
                    },
                    _ => *mode,
                };
                player_ctrl_state.fire.pressed = false;
            }
        }
    }
}

} // verus!
