# hectic

The menus, key bindings and game modes of Hectic, a vertical shoot-'em-up,
as a Verus library whose behaviour is stated in contracts and proved.

- `src/menu.rs`: menu items and moving a menu's selection up and down past
  items that cannot be selected; the two moves undo each other.
- `src/controls.rs`: key bindings (keys are held by name), following key
  presses and releases, the pause and debug toggles, and the lines of the
  controls menu.
- `src/resources.rs`: the game modes and the menu that each one shows.
- `src/systems.rs`: pausing and resuming, and driving a menu with the
  single player's keys.
- `app/`: the window and event loop, the systems run in a `specs` world,
  `controls.toml` reading and writing, and the floating-point movement,
  time and collision code.
