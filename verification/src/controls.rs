use vstd::prelude::*;
use crate::menu::{Item, views};

verus! {

/// Which player a set of controls belongs to.
#[derive(Clone, Copy, Debug, PartialEq, Eq, Structural)]
pub enum Player {
    Single,
    One,
    Two,
}

/// A key binding, named as the windowing layer names the key (`"Up"`,
/// `"LShift"`, `"P"`, ...), and whether it is held (or, for a toggle,
/// switched on).
pub struct KeyState {
    pub key: String,
    pub pressed: bool,
}

/// The text `label` followed by the name of the key bound to it.
pub open spec fn key_line(label: Seq<char>, state: KeyState) -> Seq<char> {
    label + state.key@
}

impl KeyState {
    /// A binding to `key` that is not held.
    pub fn new(key: String) -> (state: Self)
        ensures
            state.key@ == key@,
            !state.pressed,
    {
        KeyState { key, pressed: false }
    }

    /// The binding after the key named `key` went down (`pressed`) or up.
    pub open spec fn after_press(self, key: Seq<char>, pressed: bool) -> KeyState {
        KeyState {
            key: self.key,
            pressed: if self.key@ == key { pressed } else { self.pressed },
        }
    }

    /// The toggle after the key named `key` went down (`pressed`) or up:
    /// each time its own key goes down it flips.
    pub open spec fn after_toggle(self, key: Seq<char>, pressed: bool) -> KeyState {
        KeyState {
            key: self.key,
            pressed: if self.key@ == key && pressed { !self.pressed } else { self.pressed },
        }
    }

    fn toggle(&mut self, key: &String, pressed: bool)
        ensures
            *final(self) == old(self).after_toggle(key@, pressed),
    {
        if self.key == *key && pressed {
            self.pressed = !self.pressed;
        }
    }

    fn press(&mut self, key: &String, pressed: bool)
        ensures
            *final(self) == old(self).after_press(key@, pressed),
    {
        if self.key == *key {
            self.pressed = pressed;
        }
    }
}

/// A line of the controls menu: `label`, then the bound key's name.
fn key_item(label: &str, state: &KeyState) -> (item: Item)
    ensures
        item@ == (key_line(label@, *state), true),
{
    let mut text = String::from_str(label);
    text.append(state.key.as_str());
    Item::owned(text)
}

/// The keys one player steers, fires and bombs with.
pub struct PlayerControlsState {
    pub up: KeyState,
    pub left: KeyState,
    pub right: KeyState,
    pub down: KeyState,
    pub fire: KeyState,
    pub bomb: KeyState,
    pub slow_movement: KeyState,
}

impl PlayerControlsState {
    /// The names of the keys, in the order up, left, right, down, fire,
    /// bomb, slow movement.
    pub open spec fn key_names(self) -> Seq<Seq<char>> {
        seq![
            self.up.key@, self.left.key@, self.right.key@, self.down.key@,
            self.fire.key@, self.bomb.key@, self.slow_movement.key@,
        ]
    }

    /// The bindings, in the order up, left, right, down, fire, bomb, slow
    /// movement.
    pub open spec fn bindings(self) -> Seq<KeyState> {
        seq![self.up, self.left, self.right, self.down, self.fire, self.bomb, self.slow_movement]
    }

    /// No key of these controls is held.
    pub open spec fn released(self) -> bool {
        !self.up.pressed && !self.left.pressed && !self.right.pressed && !self.down.pressed
            && !self.fire.pressed && !self.bomb.pressed && !self.slow_movement.pressed
    }

    /// The lines that the controls menu shows for these controls.
    pub open spec fn item_views(self) -> Seq<(Seq<char>, bool)> {
        seq![
            (key_line("up: "@, self.up), true),
            (key_line("left: "@, self.left), true),
            (key_line("right: "@, self.right), true),
            (key_line("down: "@, self.down), true),
            (key_line("fire: "@, self.fire), true),
            (key_line("bomb: "@, self.bomb), true),
            (key_line("slow movement: "@, self.slow_movement), true),
        ]
    }

    /// The controls after the key named `key` went down (`pressed`) or up.
    pub open spec fn after_press(self, key: Seq<char>, pressed: bool) -> PlayerControlsState {
        PlayerControlsState {
            up: self.up.after_press(key, pressed),
            left: self.left.after_press(key, pressed),
            right: self.right.after_press(key, pressed),
            down: self.down.after_press(key, pressed),
            fire: self.fire.after_press(key, pressed),
            bomb: self.bomb.after_press(key, pressed),
            slow_movement: self.slow_movement.after_press(key, pressed),
        }
    }

    /// One line per key: its action, then the key's name.
    pub fn as_items(&self) -> (items: Vec<Item>)
        ensures
            views(items@) == self.item_views(),
    {
        let mut items: Vec<Item> = Vec::new();
        items.push(key_item("up: ", &self.up));
        items.push(key_item("left: ", &self.left));
        items.push(key_item("right: ", &self.right));
        items.push(key_item("down: ", &self.down));
        items.push(key_item("fire: ", &self.fire));
        items.push(key_item("bomb: ", &self.bomb));
        items.push(key_item("slow movement: ", &self.slow_movement));
        assert(views(items@) =~= self.item_views());
        items
    }

    fn single_player() -> (controls: Self)
        ensures
            controls.key_names() == seq![
                "Up"@, "Left"@, "Right"@, "Down"@, "Z"@, "X"@, "LShift"@,
            ],
            controls.released(),
    {
        let controls = PlayerControlsState {
            up: KeyState::new(String::from_str("Up")),
            left: KeyState::new(String::from_str("Left")),
            right: KeyState::new(String::from_str("Right")),
            down: KeyState::new(String::from_str("Down")),
            fire: KeyState::new(String::from_str("Z")),
            bomb: KeyState::new(String::from_str("X")),
            slow_movement: KeyState::new(String::from_str("LShift")),
        };
        assert(controls.key_names() =~= seq![
            "Up"@, "Left"@, "Right"@, "Down"@, "Z"@, "X"@, "LShift"@,
        ]);
        controls
    }

    fn player_one() -> (controls: Self)
        ensures
            controls.key_names() == seq![
                "Up"@, "Left"@, "Right"@, "Down"@, "Slash"@, "Period"@, "RShift"@,
            ],
            controls.released(),
    {
        let mut controls = Self::single_player();
        controls.fire = KeyState::new(String::from_str("Slash"));
        controls.bomb = KeyState::new(String::from_str("Period"));
        controls.slow_movement = KeyState::new(String::from_str("RShift"));
        assert(controls.key_names() =~= seq![
            "Up"@, "Left"@, "Right"@, "Down"@, "Slash"@, "Period"@, "RShift"@,
        ]);
        controls
    }

    fn player_two() -> (controls: Self)
        ensures
            controls.key_names() == seq!["W"@, "A"@, "D"@, "S"@, "V"@, "B"@, "N"@],
            controls.released(),
    {
        let controls = PlayerControlsState {
            up: KeyState::new(String::from_str("W")),
            left: KeyState::new(String::from_str("A")),
            right: KeyState::new(String::from_str("D")),
            down: KeyState::new(String::from_str("S")),
            fire: KeyState::new(String::from_str("V")),
            bomb: KeyState::new(String::from_str("B")),
            slow_movement: KeyState::new(String::from_str("N")),
        };
        assert(controls.key_names() =~= seq!["W"@, "A"@, "D"@, "S"@, "V"@, "B"@, "N"@]);
        controls
    }

    fn press(&mut self, key: &String, pressed: bool)
        ensures
            *final(self) == old(self).after_press(key@, pressed),
    {
        self.up.press(key, pressed);
        self.left.press(key, pressed);
        self.right.press(key, pressed);
        self.down.press(key, pressed);
        self.fire.press(key, pressed);
        self.bomb.press(key, pressed);
        self.slow_movement.press(key, pressed);
    }
}

/// All the key bindings of the game: the pause and debug toggles, and the
/// controls of the single player and of the two players of a multiplayer
/// game.
pub struct ControlsState {
    pub pause: KeyState,
    pub debug: KeyState,
    pub single_player: PlayerControlsState,
    pub player_1: PlayerControlsState,
    pub player_2: PlayerControlsState,
}

impl ControlsState {
    /// The controls of `player`.
    pub open spec fn player(self, player: Player) -> PlayerControlsState {
        match player {
            Player::Single => self.single_player,
            Player::One => self.player_1,
            Player::Two => self.player_2,
        }
    }

    /// These controls with those of `player` replaced by `controls`.
    pub open spec fn with_player(self, player: Player, controls: PlayerControlsState) -> ControlsState {
        match player {
            Player::Single => ControlsState { single_player: controls, ..self },
            Player::One => ControlsState { player_1: controls, ..self },
            Player::Two => ControlsState { player_2: controls, ..self },
        }
    }

    /// The lines of the controls menu.
    pub open spec fn item_views(self) -> Seq<(Seq<char>, bool)> {
        seq![
            ("General:"@, false),
            (key_line("pause: "@, self.pause), true),
            (key_line("debug: "@, self.debug), true),
            ("Single Player:"@, false),
        ] + self.single_player.item_views() + seq![("Player One (Multiplayer):"@, false)]
            + self.player_1.item_views() + seq![("Player Two (Multiplayer):"@, false)]
            + self.player_2.item_views() + seq![("Back"@, true)]
    }

    /// The controls after the key named `key` went down (`pressed`) or up:
    /// every binding to that key follows it, and the pause and debug
    /// toggles flip when their key goes down.
    pub open spec fn after_press(self, key: Seq<char>, pressed: bool) -> ControlsState {
        ControlsState {
            pause: self.pause.after_toggle(key, pressed),
            debug: self.debug.after_toggle(key, pressed),
            single_player: self.single_player.after_press(key, pressed),
            player_1: self.player_1.after_press(key, pressed),
            player_2: self.player_2.after_press(key, pressed),
        }
    }

    /// The lines of the controls menu: a heading, then one line per key,
    /// for the toggles and for each player, and `Back` last.
    pub fn as_items(&self) -> (items: Vec<Item>)
        ensures
            views(items@) == self.item_views(),
    {
        let mut items: Vec<Item> = Vec::new();
        items.push(Item::unactive("General:"));
        items.push(key_item("pause: ", &self.pause));
        items.push(key_item("debug: ", &self.debug));
        items.push(Item::unactive("Single Player:"));
        let mut single = self.single_player.as_items();
        items.append(&mut single);
        items.push(Item::unactive("Player One (Multiplayer):"));
        let mut one = self.player_1.as_items();
        items.append(&mut one);
        items.push(Item::unactive("Player Two (Multiplayer):"));
        let mut two = self.player_2.as_items();
        items.append(&mut two);
        items.push(Item::new("Back"));
        assert(views(items@) =~= self.item_views());
        items
    }

    /// Follows a key going down (`pressed`) or up.
    pub fn press(&mut self, key: &String, pressed: bool)
        ensures
            *final(self) == old(self).after_press(key@, pressed),
    {
        self.single_player.press(key, pressed);
        self.player_1.press(key, pressed);
        self.player_2.press(key, pressed);
        self.pause.toggle(key, pressed);
        self.debug.toggle(key, pressed);
    }

    pub fn get(&self, player: Player) -> (controls: &PlayerControlsState)
        ensures
            *controls == self.player(player),
    {
        match player {
            Player::Single => &self.single_player,
            Player::One => &self.player_1,
            Player::Two => &self.player_2,
        }
    }

    pub fn get_mut(&mut self, player: Player) -> (controls: &mut PlayerControlsState)
        ensures
            *controls == old(self).player(player),
            *final(self) == old(self).with_player(player, *final(controls)),
    {
        match player {
            Player::Single => &mut self.single_player,
            Player::One => &mut self.player_1,
            Player::Two => &mut self.player_2,
        }
    }
}

impl Default for ControlsState {
    /// Arrows, Z, X and left shift for one player; for two, the arrows,
    /// slash, period and right shift, and W, A, D, S, V, B and N; P
    /// pauses and semicolon toggles debugging. Nothing is held.
    fn default() -> (controls: Self)
        ensures
            controls.single_player.key_names() == seq![
                "Up"@, "Left"@, "Right"@, "Down"@, "Z"@, "X"@, "LShift"@,
            ],
            controls.player_1.key_names() == seq![
                "Up"@, "Left"@, "Right"@, "Down"@, "Slash"@, "Period"@, "RShift"@,
            ],
            controls.player_2.key_names() == seq!["W"@, "A"@, "D"@, "S"@, "V"@, "B"@, "N"@],
            controls.pause.key@ == "P"@,
            controls.debug.key@ == "Semicolon"@,
            controls.single_player.released(),
            controls.player_1.released(),
            controls.player_2.released(),
            !controls.pause.pressed,
            !controls.debug.pressed,
    {
        ControlsState {
            single_player: PlayerControlsState::single_player(),
            player_1: PlayerControlsState::player_one(),
            player_2: PlayerControlsState::player_two(),
            pause: KeyState::new(String::from_str("P")),
            debug: KeyState::new(String::from_str("Semicolon")),
        }
    }
}

/// A toggle whose key is pressed twice is as it was; letting a key go
/// never flips a toggle.
pub proof fn lemma_toggle_twice(state: KeyState, key: Seq<char>)
    ensures
        state.after_toggle(key, true).after_toggle(key, true) == state,
        state.after_toggle(key, false) == state,
{
}

/// The actions of a player's controls, as the controls menu names them, in
/// the order of `bindings`.
pub open spec fn action_labels() -> Seq<Seq<char>> {
    seq!["up: "@, "left: "@, "right: "@, "down: "@, "fire: "@, "bomb: "@, "slow movement: "@]
}

/// A key going down (`pressed`) or up reaches every binding, of every
/// player and every action, that is bound to it: each such binding is then
/// held exactly when the key is down. Bindings to other keys keep their
/// state, no binding changes its key, and the pause and debug toggles flip
/// exactly when their own key goes down.
pub proof fn lemma_press_reaches_every_binding(
    controls: ControlsState,
    key: Seq<char>,
    pressed: bool,
    player: Player,
    i: int,
)
    requires
        0 <= i < 7,
    ensures
        ({
            let before = controls.player(player).bindings()[i];
            let after = controls.after_press(key, pressed).player(player).bindings()[i];
            &&& after.key == before.key
            &&& before.key@ == key ==> after.pressed == pressed
            &&& before.key@ != key ==> after.pressed == before.pressed
        }),
        ({
            let after = controls.after_press(key, pressed);
            &&& after.pause.key == controls.pause.key
            &&& after.debug.key == controls.debug.key
            &&& after.pause.pressed == (controls.pause.pressed != (controls.pause.key@ == key && pressed))
            &&& after.debug.pressed == (controls.debug.pressed != (controls.debug.key@ == key && pressed))
        }),
{
}

/// The lines a player's controls show: one per action, in the order of
/// `bindings`, its label followed by the bound key's name, all selectable.
pub proof fn lemma_player_lines(controls: PlayerControlsState, i: int)
    requires
        0 <= i < 7,
    ensures
        controls.item_views().len() == 7,
        controls.item_views()[i] == (action_labels()[i] + controls.bindings()[i].key@, true),
{
}

/// The controls menu has 28 lines: the headings `General:`, `Single
/// Player:`, `Player One (Multiplayer):` and `Player Two (Multiplayer):` at
/// 0, 3, 11 and 19 cannot be selected; every other line, the key lines and
/// `Back` last, can. The key lines name the pause and debug keys at 1 and 2,
/// then the single player's, player one's and player two's bindings from 4,
/// 12 and 20.
pub proof fn lemma_controls_menu_layout(controls: ControlsState, i: int, j: int)
    requires
        0 <= i < 28,
        0 <= j < 7,
    ensures
        ({
            let lines = controls.item_views();
            &&& lines.len() == 28
            &&& lines[i].1 <==> !(i == 0 || i == 3 || i == 11 || i == 19)
            &&& lines[0].0 == "General:"@
            &&& lines[3].0 == "Single Player:"@
            &&& lines[11].0 == "Player One (Multiplayer):"@
            &&& lines[19].0 == "Player Two (Multiplayer):"@
            &&& lines[27].0 == "Back"@
            &&& lines[1].0 == "pause: "@ + controls.pause.key@
            &&& lines[2].0 == "debug: "@ + controls.debug.key@
            &&& lines[4 + j].0 == action_labels()[j] + controls.single_player.bindings()[j].key@
            &&& lines[12 + j].0 == action_labels()[j] + controls.player_1.bindings()[j].key@
            &&& lines[20 + j].0 == action_labels()[j] + controls.player_2.bindings()[j].key@
        }),
{
    let lines = controls.item_views();
    let a = controls.single_player.item_views();
    let b = controls.player_1.item_views();
    let c = controls.player_2.item_views();
    assert(lines[4 + j] == a[j]);
    assert(lines[12 + j] == b[j]);
    assert(lines[20 + j] == c[j]);
    if 4 <= i < 11 {
        assert(lines[i] == a[i - 4]);
    } else if 12 <= i < 19 {
        assert(lines[i] == b[i - 12]);
    } else if 20 <= i < 27 {
        assert(lines[i] == c[i - 20]);
    }
}

/// Each player has controls of their own: the single player's, player
/// one's and player two's; replacing one player's controls leaves the
/// others' and the toggles as they were.
pub proof fn lemma_players_own_controls(controls: ControlsState, player: Player, other: Player, new: PlayerControlsState)
    ensures
        controls.player(Player::Single) == controls.single_player,
        controls.player(Player::One) == controls.player_1,
        controls.player(Player::Two) == controls.player_2,
        controls.with_player(player, new).player(player) == new,
        other != player ==> controls.with_player(player, new).player(other) == controls.player(other),
        controls.with_player(player, new).pause == controls.pause,
        controls.with_player(player, new).debug == controls.debug,
{
}

/// Pressing and letting go of a key twice leaves every binding as letting
/// it go once does: the pause and debug toggles have flipped back, and the
/// players' bindings to the key are let go.
pub proof fn lemma_press_release_twice(controls: ControlsState, key: Seq<char>)
    ensures
        controls.after_press(key, true).after_press(key, false).after_press(key, true)
            .after_press(key, false) == controls.after_press(key, false),
{
    let twice = controls.after_press(key, true).after_press(key, false).after_press(key, true)
        .after_press(key, false);
    let once = controls.after_press(key, false);
    lemma_player_press_release_twice(controls.single_player, key);
    lemma_player_press_release_twice(controls.player_1, key);
    lemma_player_press_release_twice(controls.player_2, key);
    lemma_toggle_cycle_twice(controls.pause, key);
    lemma_toggle_cycle_twice(controls.debug, key);
    assert(twice.pause == once.pause);
    assert(twice.debug == once.debug);
    assert(twice.single_player == once.single_player);
    assert(twice.player_1 == once.player_1);
    assert(twice.player_2 == once.player_2);
}

proof fn lemma_toggle_cycle_twice(state: KeyState, key: Seq<char>)
    ensures
        state.after_toggle(key, true).after_toggle(key, false).after_toggle(key, true)
            .after_toggle(key, false) == state.after_toggle(key, false),
{
}

proof fn lemma_key_press_release_twice(state: KeyState, key: Seq<char>)
    ensures
        state.after_press(key, true).after_press(key, false).after_press(key, true)
            .after_press(key, false) == state.after_press(key, false),
{
}

proof fn lemma_player_press_release_twice(controls: PlayerControlsState, key: Seq<char>)
    ensures
        controls.after_press(key, true).after_press(key, false).after_press(key, true)
            .after_press(key, false) == controls.after_press(key, false),
{
    lemma_key_press_release_twice(controls.up, key);
    lemma_key_press_release_twice(controls.left, key);
    lemma_key_press_release_twice(controls.right, key);
    lemma_key_press_release_twice(controls.down, key);
    lemma_key_press_release_twice(controls.fire, key);
    lemma_key_press_release_twice(controls.bomb, key);
    lemma_key_press_release_twice(controls.slow_movement, key);
}

} // verus!
