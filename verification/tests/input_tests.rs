use proext::input::{
    menu_key, MenuKeyAction, MenuKeyEvent,
    get_aimbot_toggled, hotkey_index_to_io, is_feature_toggled, is_io_pressed, HotkeyInput,
    AIMBOT_TOGGLE_DELAY_NS,
};
use proext::mouse::{
    click_mouse, create_mouse_input, move_mouse, press_mouse, release_mouse, MouseInput,
    MOUSE_LEFT_DOWN, MOUSE_LEFT_UP, MOUSE_MOVE,
};
use proext::messagebox::{
    convert_mbbuttons, convert_mbresult, convert_mbstyle, dialog_style, MessageBoxButtons,
    MessageBoxResult, MessageBoxStyle,
};

#[test]
fn hotkey_indices() {
    assert_eq!(hotkey_index_to_io(1), HotkeyInput::MouseLeft);
    assert_eq!(hotkey_index_to_io(2), HotkeyInput::MouseMiddle);
    assert_eq!(hotkey_index_to_io(3), HotkeyInput::MouseRight);
    assert_eq!(hotkey_index_to_io(4), HotkeyInput::MouseSide);
    assert_eq!(hotkey_index_to_io(5), HotkeyInput::MouseExtra);
    assert_eq!(hotkey_index_to_io(6), HotkeyInput::LeftShift);
    assert_eq!(hotkey_index_to_io(7), HotkeyInput::LeftControl);
    assert_eq!(hotkey_index_to_io(0), HotkeyInput::LeftAlt);
    assert_eq!(hotkey_index_to_io(8), HotkeyInput::LeftAlt);
}

#[test]
fn pressed_key_lookup() {
    let held = [HotkeyInput::LeftShift, HotkeyInput::MouseRight];
    assert!(is_io_pressed(3, &held));
    assert!(is_io_pressed(6, &held));
    assert!(!is_io_pressed(1, &held));
    assert!(!is_io_pressed(0, &[]));
}

#[test]
fn hold_mode_follows_key() {
    let mut toggled = true;
    let mut changed = 5;
    assert!(is_feature_toggled(1, 0, &mut toggled, &mut changed, &[HotkeyInput::MouseLeft], 1000, 200));
    assert!(!is_feature_toggled(1, 0, &mut toggled, &mut changed, &[], 1000, 200));
    assert_eq!((toggled, changed), (true, 5));
}

#[test]
fn toggle_mode_flips_with_debounce() {
    let held = [HotkeyInput::MouseLeft];
    let mut toggled = false;
    let mut changed = 0;
    assert!(is_feature_toggled(1, 1, &mut toggled, &mut changed, &held, 1000, 200));
    assert_eq!(changed, 1000);
    // within the delay: nothing changes
    assert!(is_feature_toggled(1, 1, &mut toggled, &mut changed, &held, 1100, 200));
    assert_eq!(changed, 1000);
    // released: nothing changes
    assert!(is_feature_toggled(1, 1, &mut toggled, &mut changed, &[], 2000, 200));
    // second press after the delay: back off
    assert!(!is_feature_toggled(1, 1, &mut toggled, &mut changed, &held, 2000, 200));
    assert_eq!((toggled, changed), (false, 2000));
}

#[test]
fn toggle_delay_is_strict() {
    let held = [HotkeyInput::LeftAlt];
    let mut toggled = false;
    let mut changed = 1000;
    assert!(!is_feature_toggled(0, 1, &mut toggled, &mut changed, &held, 1200, 200));
    assert!(is_feature_toggled(0, 1, &mut toggled, &mut changed, &held, 1201, 200));
}

#[test]
fn mouse_events() {
    let down = create_mouse_input(MOUSE_LEFT_DOWN, 0, 0, 0, 0);
    let up = create_mouse_input(MOUSE_LEFT_UP, 0, 0, 0, 0);
    assert_eq!(click_mouse(), vec![down, up]);
    assert_eq!(
        move_mouse(3, -4),
        MouseInput { flags: MOUSE_MOVE, dx: 3, dy: -4, data: 0, extra_info: 0 }
    );
    assert_eq!((MOUSE_MOVE, MOUSE_LEFT_DOWN, MOUSE_LEFT_UP), (1, 2, 4));
}

#[test]
fn press_and_release_balance() {
    let mut locked = false;
    assert_eq!(press_mouse(&mut locked), Some(create_mouse_input(MOUSE_LEFT_DOWN, 0, 0, 0, 0)));
    assert!(locked);
    assert_eq!(press_mouse(&mut locked), None);
    assert_eq!(release_mouse(&mut locked), Some(create_mouse_input(MOUSE_LEFT_UP, 0, 0, 0, 0)));
    assert!(!locked);
    assert_eq!(release_mouse(&mut locked), None);
}

#[test]
fn message_box_flags() {
    assert_eq!(convert_mbstyle(MessageBoxStyle::Info), 0x40);
    assert_eq!(convert_mbstyle(MessageBoxStyle::Warning), 0x30);
    assert_eq!(convert_mbstyle(MessageBoxStyle::Error), 0x10);
    assert_eq!(convert_mbbuttons(MessageBoxButtons::OkCancel), 0x1);
    assert_eq!(convert_mbbuttons(MessageBoxButtons::YesNo), 0x4);
    assert_eq!(dialog_style(MessageBoxStyle::Warning, MessageBoxButtons::OkCancel), 0x31);
    assert_eq!(dialog_style(MessageBoxStyle::Info, MessageBoxButtons::YesNo), 0x44);
}

#[test]
fn message_box_results() {
    assert_eq!(convert_mbresult(1), MessageBoxResult::Okay);
    assert_eq!(convert_mbresult(2), MessageBoxResult::Cancel);
    assert_eq!(convert_mbresult(6), MessageBoxResult::Yes);
    assert_eq!(convert_mbresult(7), MessageBoxResult::No);
    assert_eq!(convert_mbresult(0), MessageBoxResult::Dismissed);
    assert_eq!(convert_mbresult(3), MessageBoxResult::Dismissed);
}

#[test]
fn aimbot_toggle_uses_quarter_second() {
    let held = [HotkeyInput::MouseSide];
    let mut toggled = false;
    let mut changed = 0;
    assert!(get_aimbot_toggled(4, 1, &mut toggled, &mut changed, &held, 300_000_000));
    assert!(get_aimbot_toggled(4, 1, &mut toggled, &mut changed, &held, 550_000_000));
    assert!(!get_aimbot_toggled(4, 1, &mut toggled, &mut changed, &held, 550_000_001));
    assert!(get_aimbot_toggled(4, 0, &mut toggled, &mut changed, &held, 550_000_002));
    assert_eq!(AIMBOT_TOGGLE_DELAY_NS, 250_000_000);
}

#[test]
fn menu_key_toggles_focus() {
    let mut open = false;
    assert_eq!(menu_key(&mut open, MenuKeyEvent::ToggleReleased), MenuKeyAction::FocusOverlay);
    assert!(open);
    assert_eq!(menu_key(&mut open, MenuKeyEvent::Other), MenuKeyAction::Ignore);
    assert_eq!(menu_key(&mut open, MenuKeyEvent::ToggleReleased), MenuKeyAction::FocusGame);
    assert!(!open);
    assert_eq!(menu_key(&mut open, MenuKeyEvent::ExitPressed), MenuKeyAction::Exit);
}
