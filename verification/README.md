# proext

The logic of an external overlay for Counter-Strike 2, as a verified Verus
library with a thin program around it.

- `src/` holds everything that decides or computes: pointer-chain and
  entity-list lookups driven one read at a time, the weapon table, feature
  activation and toggles, the bomb timer, the triggerbot and aimbot target
  locks, the cheat list, configuration defaults and file handling, offset
  updates from signature scans, and the mouse and message-box conversions.
  Each public function states its result exactly; laws relating several
  functions are public proof functions.
- `app/` holds what Verus does not see: configuration files, the update
  check, rich presence, drawing of the small windows, and the driving of
  the library's read machines against a game process.
- `tests/` runs the library on concrete values.

Reading and writing the game's memory, and the overlay window, use Windows
services that this build does not link; `app/session.rs` and
`app/frame.rs` describe that work against a `GameProcess` the platform
provides.
