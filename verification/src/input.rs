use vstd::prelude::*;

verus! {

/// A mouse button or keyboard key a feature can be bound to.
#[derive(Clone, Copy, PartialEq, Eq, Structural, Debug)]
pub enum HotkeyInput {
    MouseLeft,
    MouseMiddle,
    MouseRight,
    MouseSide,
    MouseExtra,
    LeftShift,
    LeftControl,
    LeftAlt,
}

/// The input bound to a hotkey index of the settings: indices 1 to 5 are
/// mouse buttons, 6 and 7 the left Shift and Control keys, and any other
/// index the left Alt key.
pub open spec fn hotkey_input(index: usize) -> HotkeyInput {
    if index == 1 {
        HotkeyInput::MouseLeft
    } else if index == 2 {
        HotkeyInput::MouseMiddle
    } else if index == 3 {
        HotkeyInput::MouseRight
    } else if index == 4 {
        HotkeyInput::MouseSide
    } else if index == 5 {
        HotkeyInput::MouseExtra
    } else if index == 6 {
        HotkeyInput::LeftShift
    } else if index == 7 {
        HotkeyInput::LeftControl
    } else {
        HotkeyInput::LeftAlt
    }
}

/// Whether an input is a mouse button (as opposed to a keyboard key).
pub open spec fn is_mouse(input: HotkeyInput) -> bool {
    match input {
        HotkeyInput::MouseLeft | HotkeyInput::MouseMiddle | HotkeyInput::MouseRight
        | HotkeyInput::MouseSide | HotkeyInput::MouseExtra => true,
        _ => false,
    }
}

/// The input bound to a hotkey index.
pub fn hotkey_index_to_io(hotkey_index: usize) -> (r: HotkeyInput)
    ensures
        r == hotkey_input(hotkey_index),
        is_mouse(r) <==> 1 <= hotkey_index <= 5,
{
    if hotkey_index == 1 {
        HotkeyInput::MouseLeft
    } else if hotkey_index == 2 {
        HotkeyInput::MouseMiddle
    } else if hotkey_index == 3 {
        HotkeyInput::MouseRight
    } else if hotkey_index == 4 {
        HotkeyInput::MouseSide
    } else if hotkey_index == 5 {
        HotkeyInput::MouseExtra
    } else if hotkey_index == 6 {
        HotkeyInput::LeftShift
    } else if hotkey_index == 7 {
        HotkeyInput::LeftControl
    } else {
        HotkeyInput::LeftAlt
    }
}

/// Whether the input bound to `key` is among the inputs held down.
pub fn is_io_pressed(key: usize, held: &[HotkeyInput]) -> (r: bool)
    ensures
        r == held@.contains(hotkey_input(key)),
{
    let wanted = hotkey_index_to_io(key);
    let mut i: usize = 0;
    while i < held.len()
        invariant
            wanted == hotkey_input(key),
            i <= held@.len(),
            forall|j: int| 0 <= j < i ==> held@[j] != wanted,
        decreases held.len() - i,
    {
        if held[i] == wanted {
            return true;
        }
        i = i + 1;
    }
    false
}

/// One check of a feature: whether it is active, its toggle state after the
/// check, and the time (nanoseconds of a monotonic clock) of its last flip.
pub open spec fn toggle_step(
    pressed: bool,
    mode: usize,
    toggled: bool,
    changed_ns: u64,
    now_ns: u64,
    delay_ns: u64,
) -> (bool, bool, u64) {
    if mode == 0 {
        (pressed, toggled, changed_ns)
    } else if pressed && now_ns - changed_ns > delay_ns {
        (!toggled, !toggled, now_ns)
    } else {
        (toggled, toggled, changed_ns)
    }
}

/// Whether a feature bound to `key` is active. In hold mode (`mode == 0`)
/// it is active while the key is held. In toggle mode each press flips
/// `toggle_toggled`, unless the last flip is at most `toggle_delay_ns`
/// old; a flip records `now_ns` in `toggle_changed`.
pub fn is_feature_toggled(
    key: usize,
    mode: usize,
    toggle_toggled: &mut bool,
    toggle_changed: &mut u64,
    held: &[HotkeyInput],
    now_ns: u64,
    toggle_delay_ns: u64,
) -> (r: bool)
    ensures
        (r, *final(toggle_toggled), *final(toggle_changed)) == toggle_step(
            held@.contains(hotkey_input(key)),
            mode,
            *old(toggle_toggled),
            *old(toggle_changed),
            now_ns,
            toggle_delay_ns,
        ),
{
    let pressed = is_io_pressed(key, held);
    if mode == 0 {
        pressed
    } else {
        let elapsed: u64 = now_ns.saturating_sub(*toggle_changed);
        if pressed && elapsed > toggle_delay_ns {
            *toggle_toggled = !*toggle_toggled;
            *toggle_changed = now_ns;
        }
        *toggle_toggled
    }
}

/// The least time between two flips of the aimbot toggle, in nanoseconds.
pub const AIMBOT_TOGGLE_DELAY_NS: u64 = 250_000_000;

/// Whether the aimbot is active: held in hold mode (`aimbot_mode == 0`),
/// otherwise flipped by presses at most every `AIMBOT_TOGGLE_DELAY_NS`.
pub fn get_aimbot_toggled(
    aimbot_key: usize,
    aimbot_mode: usize,
    aimbot_toggled: &mut bool,
    toggle_changed: &mut u64,
    held: &[HotkeyInput],
    now_ns: u64,
) -> (r: bool)
    ensures
        (r, *final(aimbot_toggled), *final(toggle_changed)) == toggle_step(
            held@.contains(hotkey_input(aimbot_key)),
            aimbot_mode,
            *old(aimbot_toggled),
            *old(toggle_changed),
            now_ns,
            AIMBOT_TOGGLE_DELAY_NS,
        ),
{
    is_feature_toggled(
        aimbot_key,
        aimbot_mode,
        aimbot_toggled,
        toggle_changed,
        held,
        now_ns,
        AIMBOT_TOGGLE_DELAY_NS,
    )
}

/// In hold mode a feature is active exactly while its key is held, and its
/// toggle state is left alone.
pub proof fn hold_mode_follows_key(
    pressed: bool,
    toggled: bool,
    changed_ns: u64,
    now_ns: u64,
    delay_ns: u64,
)
    ensures
        toggle_step(pressed, 0, toggled, changed_ns, now_ns, delay_ns) == (
            pressed,
            toggled,
            changed_ns,
        ),
{
}

/// In toggle mode the result is the toggle state after the step, a release
/// changes nothing, and a press within the delay of the last flip changes
/// nothing.
pub proof fn toggle_mode_debounces(
    pressed: bool,
    mode: usize,
    toggled: bool,
    changed_ns: u64,
    now_ns: u64,
    delay_ns: u64,
)
    requires
        mode != 0,
    ensures
        ({
            let (active, next, _) = toggle_step(pressed, mode, toggled, changed_ns, now_ns, delay_ns);
            active == next
        }),
        !pressed || now_ns - changed_ns <= delay_ns ==> toggle_step(
            pressed,
            mode,
            toggled,
            changed_ns,
            now_ns,
            delay_ns,
        ) == (toggled, toggled, changed_ns),
{
}

/// In toggle mode two presses, each more than the delay after the previous
/// flip, turn the feature back to where it was.
pub proof fn two_presses_restore(
    mode: usize,
    toggled: bool,
    changed_ns: u64,
    first_ns: u64,
    second_ns: u64,
    delay_ns: u64,
)
    requires
        mode != 0,
        first_ns - changed_ns > delay_ns,
        second_ns - first_ns > delay_ns,
    ensures
        ({
            let (_, t1, c1) = toggle_step(true, mode, toggled, changed_ns, first_ns, delay_ns);
            let (active, t2, c2) = toggle_step(true, mode, t1, c1, second_ns, delay_ns);
            active == toggled && t2 == toggled && c2 == second_ns
        }),
{
}

/// A key event the overlay window reacts to.
#[derive(Clone, Copy, PartialEq, Eq, Structural, Debug)]
pub enum MenuKeyEvent {
    /// The menu key was released.
    ToggleReleased,
    /// The exit key was pressed.
    ExitPressed,
    /// Any other key event.
    Other,
}

/// What the overlay does on a key event.
#[derive(Clone, Copy, PartialEq, Eq, Structural, Debug)]
pub enum MenuKeyAction {
    /// The menu opened: focus the overlay window.
    FocusOverlay,
    /// The menu closed: focus the game window.
    FocusGame,
    /// Quit the program.
    Exit,
    /// Nothing.
    Ignore,
}

/// The menu's state after a key event, and the action: the menu key flips
/// the menu, focusing the overlay when it opens and the game when it
/// closes; the exit key quits; other keys do nothing.
pub open spec fn menu_key_step(menu_open: bool, event: MenuKeyEvent) -> (bool, MenuKeyAction) {
    match event {
        MenuKeyEvent::ToggleReleased => (
            !menu_open,
            if !menu_open {
                MenuKeyAction::FocusOverlay
            } else {
                MenuKeyAction::FocusGame
            },
        ),
        MenuKeyEvent::ExitPressed => (menu_open, MenuKeyAction::Exit),
        MenuKeyEvent::Other => (menu_open, MenuKeyAction::Ignore),
    }
}

/// Handles a key event of the overlay window.
pub fn menu_key(menu_open: &mut bool, event: MenuKeyEvent) -> (r: MenuKeyAction)
    ensures
        (*final(menu_open), r) == menu_key_step(*old(menu_open), event),
{
    match event {
        MenuKeyEvent::ToggleReleased => {
            let was_open = *menu_open;
            *menu_open = !was_open;
            if !was_open {
                MenuKeyAction::FocusOverlay
            } else {
                MenuKeyAction::FocusGame
            }
        },
        MenuKeyEvent::ExitPressed => MenuKeyAction::Exit,
        MenuKeyEvent::Other => MenuKeyAction::Ignore,
    }
}

/// Two presses of the menu key bring the menu back to where it was, and
/// the two focus changes go opposite ways.
pub proof fn menu_key_twice_restores(menu_open: bool)
    ensures
        ({
            let (once, first) = menu_key_step(menu_open, MenuKeyEvent::ToggleReleased);
            let (twice, second) = menu_key_step(once, MenuKeyEvent::ToggleReleased);
            twice == menu_open && first != second
        }),
{
}

/// In toggle mode a press more than the delay after the last flip flips
/// the feature, records the time, and the feature is then active exactly
/// when it was not before.
pub proof fn toggle_mode_press_flips(
    mode: usize,
    toggled: bool,
    changed_ns: u64,
    now_ns: u64,
    delay_ns: u64,
)
    requires
        mode != 0,
        now_ns - changed_ns > delay_ns,
    ensures
        toggle_step(true, mode, toggled, changed_ns, now_ns, delay_ns) == (!toggled, !toggled, now_ns),
{
}

} // verus!
