use vstd::prelude::*;

verus! {

/// `MOUSEEVENTF_MOVE`: relative motion.
pub const MOUSE_MOVE: u32 = 0x1;

/// `MOUSEEVENTF_LEFTDOWN`: the left button goes down.
pub const MOUSE_LEFT_DOWN: u32 = 0x2;

/// `MOUSEEVENTF_LEFTUP`: the left button comes up.
pub const MOUSE_LEFT_UP: u32 = 0x4;

/// One synthetic mouse event, as handed to the system's input queue.
#[derive(Clone, Copy, PartialEq, Eq, Structural, Debug)]
pub struct MouseInput {
    pub flags: u32,
    pub dx: i32,
    pub dy: i32,
    pub data: u32,
    pub extra_info: usize,
}

/// A mouse event with the given fields.
pub fn create_mouse_input(flags: u32, dx: i32, dy: i32, data: u32, extra_info: usize) -> (r: MouseInput)
    ensures
        r == (MouseInput { flags, dx, dy, data, extra_info }),
{
    MouseInput { flags, dx, dy, data, extra_info }
}

/// A bare event with only flags set.
pub open spec fn button_event(flags: u32) -> MouseInput {
    MouseInput { flags, dx: 0, dy: 0, data: 0, extra_info: 0 }
}

/// A left click: the button goes down, then up.
pub fn click_mouse() -> (r: Vec<MouseInput>)
    ensures
        r@ == seq![button_event(MOUSE_LEFT_DOWN), button_event(MOUSE_LEFT_UP)],
{
    let mut events: Vec<MouseInput> = Vec::new();
    events.push(create_mouse_input(MOUSE_LEFT_DOWN, 0, 0, 0, 0));
    events.push(create_mouse_input(MOUSE_LEFT_UP, 0, 0, 0, 0));
    events
}

/// Pressing the left button: whether the overlay then holds it, and the
/// event to send.
pub open spec fn press_step(locked: bool) -> (bool, Option<MouseInput>) {
    (true, if locked { None } else { Some(button_event(MOUSE_LEFT_DOWN)) })
}

/// Releasing the left button: whether the overlay then holds it, and the
/// event to send.
pub open spec fn release_step(locked: bool) -> (bool, Option<MouseInput>) {
    (false, if locked { Some(button_event(MOUSE_LEFT_UP)) } else { None })
}

/// Holds the left button down, unless this overlay already holds it
/// (`mouse_locked`): the event to send, if any.
pub fn press_mouse(mouse_locked: &mut bool) -> (r: Option<MouseInput>)
    ensures
        (*final(mouse_locked), r) == press_step(*old(mouse_locked)),
{
    if !*mouse_locked {
        *mouse_locked = true;
        Some(create_mouse_input(MOUSE_LEFT_DOWN, 0, 0, 0, 0))
    } else {
        None
    }
}

/// Lets the left button go, if this overlay holds it (`mouse_locked`): the
/// event to send, if any.
pub fn release_mouse(mouse_locked: &mut bool) -> (r: Option<MouseInput>)
    ensures
        (*final(mouse_locked), r) == release_step(*old(mouse_locked)),
{
    if *mouse_locked {
        *mouse_locked = false;
        Some(create_mouse_input(MOUSE_LEFT_UP, 0, 0, 0, 0))
    } else {
        None
    }
}

/// A relative mouse motion by `(x, y)`.
pub fn move_mouse(x: i32, y: i32) -> (r: MouseInput)
    ensures
        r == (MouseInput { flags: MOUSE_MOVE, dx: x, dy: y, data: 0, extra_info: 0 }),
{
    create_mouse_input(MOUSE_MOVE, x, y, 0, 0)
}

/// Pressing twice sends one button-down event; a press followed by a
/// release from a free button sends down then up and frees the button
/// again; releasing a free button sends nothing.
pub proof fn press_release_balanced(locked: bool)
    ensures
        press_step(press_step(locked).0).1 is None,
        !locked ==> press_step(locked).1 == Some(button_event(MOUSE_LEFT_DOWN)) && release_step(
            press_step(locked).0,
        ) == (false, Some(button_event(MOUSE_LEFT_UP))),
        release_step(release_step(locked).0).1 is None,
{
}

} // verus!
