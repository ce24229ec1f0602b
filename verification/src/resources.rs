use vstd::prelude::*;
use crate::controls::ControlsState;
use crate::menu::{Item, Menu, views, has_active};

verus! {

/// The stages of the game.
#[derive(Clone, Copy, Debug, PartialEq, Eq, Structural)]
pub enum Stage {
    One,
    Two,
}

/// How a stage that is being played stands. The time at which it was won
/// or lost is the game time, a 32-bit float, held by its bit pattern.
#[derive(Clone, Copy, Debug, PartialEq, Eq, Structural)]
pub enum PlayingState {
    Playing,
    Won { at: u32 },
    Lost { at: u32 },
}

/// What the game is showing: a stage being played or paused, or one of the
/// menus, each with the index of its selected item.
#[derive(Clone, Copy, Debug, PartialEq, Eq, Structural)]
pub enum Mode {
    Playing { stage: Stage, state: PlayingState, multiplayer: bool },
    StageComplete { stage: Stage, selected: usize, multiplayer: bool },
    Paused { selected: usize, stage: Stage, state: PlayingState, multiplayer: bool },
    MainMenu { selected: usize },
    Controls { selected: usize },
    Quit,
    Stages { selected: usize, multiplayer: bool },
    StageLost { selected: usize },
}

impl Default for Mode {
    /// The game starts on the main menu, with its first item selected.
    fn default() -> (mode: Self)
        ensures
            mode == (Mode::MainMenu { selected: 0 }),
    {
        Mode::MainMenu { selected: 0 }
    }
}

impl Mode {
    /// The mode shows a menu.
    pub open spec fn has_menu(self) -> bool {
        !(self is Playing || self is Quit)
    }

    /// The index of the selected item of the menu that the mode shows.
    pub open spec fn selection(self) -> usize {
        match self {
            Mode::StageComplete { selected, .. } => selected,
            Mode::Paused { selected, .. } => selected,
            Mode::MainMenu { selected } => selected,
            Mode::Controls { selected } => selected,
            Mode::Stages { selected, .. } => selected,
            Mode::StageLost { selected } => selected,
            _ => 0,
        }
    }

    /// The mode with the selection of its menu moved to `s`.
    pub open spec fn with_selection(self, s: usize) -> Mode {
        match self {
            Mode::StageComplete { stage, multiplayer, .. } =>
                Mode::StageComplete { stage, selected: s, multiplayer },
            Mode::Paused { stage, state, multiplayer, .. } =>
                Mode::Paused { selected: s, stage, state, multiplayer },
            Mode::MainMenu { .. } => Mode::MainMenu { selected: s },
            Mode::Controls { .. } => Mode::Controls { selected: s },
            Mode::Stages { multiplayer, .. } => Mode::Stages { selected: s, multiplayer },
            Mode::StageLost { .. } => Mode::StageLost { selected: s },
            _ => self,
        }
    }

    /// The title of the menu that the mode shows.
    pub open spec fn menu_title(self) -> Seq<char> {
        match self {
            Mode::Paused { .. } => "Paused"@,
            Mode::MainMenu { .. } => "Hectic"@,
            Mode::Stages { .. } => "Stages"@,
            Mode::Controls { .. } => "Controls"@,
            Mode::StageComplete { .. } => "Stage\nComplete!"@,
            Mode::StageLost { .. } => "Stage\nLost"@,
            _ => Seq::empty(),
        }
    }

    /// The items of the menu that the mode shows, as texts and flags.
    pub open spec fn menu_items(self, controls: ControlsState) -> Seq<(Seq<char>, bool)> {
        match self {
            Mode::Paused { .. } => seq![("Resume"@, true), ("Main Menu"@, true)],
            Mode::MainMenu { .. } => seq![("Play"@, true), ("Controls"@, true), ("Quit"@, true)],
            Mode::Stages { multiplayer, .. } => seq![
                ("Stage One"@, true),
                ("Stage Two"@, true),
                (if multiplayer { "Mode: Multiplayer"@ } else { "Mode: Singleplayer"@ }, true),
                ("Back"@, true),
            ],
            Mode::Controls { .. } => controls.item_views(),
            Mode::StageComplete { stage, .. } => seq![
                match stage {
                    Stage::One => ("Continue to next stage"@, true),
                    Stage::Two => ("No Stage 3 yet!"@, false),
                },
                ("Main Menu"@, true),
            ],
            Mode::StageLost { .. } => seq![("Main Menu"@, true)],
            _ => Seq::empty(),
        }
    }

    /// Which items of the menu that the mode shows can be selected.
    pub open spec fn menu_actives(self, controls: ControlsState) -> Seq<bool> {
        self.menu_items(controls).map_values(|v: (Seq<char>, bool)| v.1)
    }

    /// The selection of the mode's menu, if it shows one, is one of its items.
    pub open spec fn selection_valid(self, controls: ControlsState) -> bool {
        self.has_menu() ==> self.selection() < self.menu_items(controls).len()
    }

    /// The menu that the mode shows, if it shows one; its selection is
    /// that of the mode, and moving it moves the mode's.
    pub fn as_menu<'a>(&'a mut self, ctrl_state: &ControlsState) -> (menu: Option<Menu<'a>>)
        ensures
            menu is Some <==> old(self).has_menu(),
            menu is None ==> *final(self) == *old(self),
            menu matches Some(m) ==> {
                &&& m.title@ == old(self).menu_title()
                &&& views(m.items@) == old(self).menu_items(*ctrl_state)
                &&& *m.selected == old(self).selection()
                &&& *final(self) == old(self).with_selection(*final(m.selected))
            },
    {
        match self {
            Mode::Paused { selected, .. } => {
                let items = vec![Item::new("Resume"), Item::new("Main Menu")];
                assert(views(items@) =~= seq![("Resume"@, true), ("Main Menu"@, true)]);
                Some(Menu { title: "Paused", items, selected })
            },
            Mode::MainMenu { selected } => {
                let items = vec![Item::new("Play"), Item::new("Controls"), Item::new("Quit")];
                assert(views(items@) =~= seq![("Play"@, true), ("Controls"@, true), ("Quit"@, true)]);
                Some(Menu { title: "Hectic", items, selected })
            },
            Mode::Stages { selected, multiplayer } => {
                let mode_text = if *multiplayer {
                    String::from_str("Mode: Multiplayer")
                } else {
                    String::from_str("Mode: Singleplayer")
                };
                let items = vec![
                    Item::new("Stage One"),
                    Item::new("Stage Two"),
                    Item::owned(mode_text),
                    Item::new("Back"),
                ];
                assert(views(items@) =~= old(self).menu_items(*ctrl_state));
                Some(Menu { title: "Stages", items, selected })
            },
            Mode::Controls { selected } => {
                Some(Menu { title: "Controls", items: ctrl_state.as_items(), selected })
            },
            Mode::StageComplete { stage, selected, .. } => {
                let first = match stage {
                    Stage::One => Item::new("Continue to next stage"),
                    Stage::Two => Item::unactive("No Stage 3 yet!"),
                };
                let items = vec![first, Item::new("Main Menu")];
                assert(views(items@) =~= old(self).menu_items(*ctrl_state));
                Some(Menu { title: "Stage\nComplete!", items, selected })
            },
            Mode::StageLost { selected } => {
                let items = vec![Item::new("Main Menu")];
                assert(views(items@) =~= seq![("Main Menu"@, true)]);
                Some(Menu { title: "Stage\nLost", items, selected })
            },
            _ => None,
        }
    }
}

/// What each menu shows, whatever the other fields of its mode hold: the
/// pause menu offers `Resume` and `Main Menu`; the main menu `Play`,
/// `Controls` and `Quit`; the stages menu both stages, the multiplayer
/// switch named after the current setting, and `Back`; the stage-lost menu
/// `Main Menu`; after stage one, continuing and `Main Menu`; after stage
/// two, a line that cannot be selected and `Main Menu`; the controls menu
/// the lines of the key bindings. Every other line can be selected.
pub proof fn lemma_menu_contents(
    controls: ControlsState,
    selected: usize,
    stage: Stage,
    state: PlayingState,
    multiplayer: bool,
)
    ensures
        (Mode::Paused { selected, stage, state, multiplayer }).menu_title() == "Paused"@,
        (Mode::Paused { selected, stage, state, multiplayer }).menu_items(controls)
            == seq![("Resume"@, true), ("Main Menu"@, true)],
        (Mode::MainMenu { selected }).menu_title() == "Hectic"@,
        (Mode::MainMenu { selected }).menu_items(controls)
            == seq![("Play"@, true), ("Controls"@, true), ("Quit"@, true)],
        (Mode::Stages { selected, multiplayer }).menu_title() == "Stages"@,
        (Mode::Stages { selected, multiplayer }).menu_items(controls) == seq![
            ("Stage One"@, true),
            ("Stage Two"@, true),
            (if multiplayer { "Mode: Multiplayer"@ } else { "Mode: Singleplayer"@ }, true),
            ("Back"@, true),
        ],
        (Mode::StageLost { selected }).menu_title() == "Stage\nLost"@,
        (Mode::StageLost { selected }).menu_items(controls) == seq![("Main Menu"@, true)],
        (Mode::StageComplete { stage, selected, multiplayer }).menu_title() == "Stage\nComplete!"@,
        (Mode::StageComplete { stage: Stage::One, selected, multiplayer }).menu_items(controls)
            == seq![("Continue to next stage"@, true), ("Main Menu"@, true)],
        (Mode::StageComplete { stage: Stage::Two, selected, multiplayer }).menu_items(controls)
            == seq![("No Stage 3 yet!"@, false), ("Main Menu"@, true)],
        (Mode::Controls { selected }).menu_title() == "Controls"@,
        (Mode::Controls { selected }).menu_items(controls) == controls.item_views(),
        !(Mode::Playing { stage, state, multiplayer }).has_menu(),
        !Mode::Quit.has_menu(),
        (Mode::Paused { selected, stage, state, multiplayer }).has_menu(),
        (Mode::Paused { selected, stage, state, multiplayer }).selection() == selected,
        (Mode::MainMenu { selected }).has_menu(),
        (Mode::MainMenu { selected }).selection() == selected,
        (Mode::Stages { selected, multiplayer }).has_menu(),
        (Mode::Stages { selected, multiplayer }).selection() == selected,
        (Mode::StageLost { selected }).has_menu(),
        (Mode::StageLost { selected }).selection() == selected,
        (Mode::StageComplete { stage, selected, multiplayer }).has_menu(),
        (Mode::StageComplete { stage, selected, multiplayer }).selection() == selected,
        (Mode::Controls { selected }).has_menu(),
        (Mode::Controls { selected }).selection() == selected,
{
}

/// Moving a menu's selection changes neither the menu nor anything else of
/// the mode: the selection becomes the given index, and setting it back to
/// what it was gives the mode back.
pub proof fn lemma_selection_is_only_the_selection(mode: Mode, controls: ControlsState, s: usize)
    requires
        mode.has_menu(),
    ensures
        mode.with_selection(s).selection() == s,
        mode.with_selection(s).has_menu(),
        mode.with_selection(s).menu_title() == mode.menu_title(),
        mode.with_selection(s).menu_items(controls) == mode.menu_items(controls),
        mode.with_selection(mode.selection()) == mode,
        mode.with_selection(s).with_selection(mode.selection()) == mode,
{
}

/// Every menu of the game has items, and one of them at least can be
/// selected: so moving the selection up or down always ends.
pub proof fn lemma_menus_selectable(mode: Mode, controls: ControlsState)
    requires
        mode.has_menu(),
    ensures
        mode.menu_items(controls).len() > 0,
        has_active(mode.menu_actives(controls)),
{
    let a = mode.menu_actives(controls);
    let last = mode.menu_items(controls).len() - 1;
    assert(a[last]);
}

} // verus!
