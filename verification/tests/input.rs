use rfvp::abi::{
    RfvpInputEventV1, INPUT_EVENT_V1_SIZE, RFVP_INPUT_FOCUS, RFVP_INPUT_KEY, RFVP_INPUT_PHASE_DOWN,
    RFVP_INPUT_PHASE_MOVE, RFVP_INPUT_PHASE_REPEAT, RFVP_INPUT_PHASE_UP, RFVP_INPUT_POINTER_BUTTON,
    RFVP_INPUT_POINTER_MOVE, RFVP_INPUT_QUIT, RFVP_INPUT_TEXT, RFVP_INPUT_TOUCH, RFVP_INPUT_WHEEL,
    RFVP_KEY_ALT, RFVP_KEY_PAGE_DOWN, RFVP_POINTER_MIDDLE, RFVP_POINTER_RIGHT,
    RFVP_STATUS_INVALID_ARGUMENT, RFVP_STATUS_OK,
};
use rfvp::host_types::{InputModifiers, KeyCode, PointerButton, RfvpEvent};
use rfvp::input::{input_batch, input_event, key_code, pointer_button};

fn event(kind: u32, code: u32, phase: u32, x: i32, y: i32) -> RfvpInputEventV1 {
    RfvpInputEventV1 {
        struct_size: INPUT_EVENT_V1_SIZE as u32,
        kind,
        code,
        phase,
        x,
        y,
        value: 0,
        modifiers: 0,
        id: 9,
    }
}

const SIZE: (u32, u32) = (640, 480);

#[test]
fn key_codes_name_keys_characters_or_unknowns() {
    assert_eq!(key_code(RFVP_KEY_PAGE_DOWN), KeyCode::PageDown);
    assert_eq!(key_code(RFVP_KEY_ALT), KeyCode::Alt);
    assert_eq!(key_code('a' as u32), KeyCode::Character('a'));
    assert_eq!(key_code('漢' as u32), KeyCode::Character('漢'));
    // Control characters and non-scalar values are unknown keys.
    assert_eq!(key_code(0x7f), KeyCode::Unknown(0x7f));
    assert_eq!(key_code(0xd800), KeyCode::Unknown(0xd800));
    assert_eq!(key_code(0x11_0000), KeyCode::Unknown(0x11_0000));
}

#[test]
fn pointer_buttons() {
    assert_eq!(pointer_button(RFVP_POINTER_RIGHT), Some(PointerButton::Right));
    assert_eq!(pointer_button(RFVP_POINTER_MIDDLE), Some(PointerButton::Middle));
    assert_eq!(pointer_button(3), None);
}

#[test]
fn key_phases_and_modifiers() {
    let mut e = event(RFVP_INPUT_KEY, 'x' as u32, RFVP_INPUT_PHASE_REPEAT, 0, 0);
    e.modifiers = 0xff;
    assert_eq!(
        input_event(&e, SIZE),
        Ok(RfvpEvent::KeyDown {
            key: KeyCode::Character('x'),
            repeat: true,
            modifiers: InputModifiers::from_bits(0xf),
        })
    );
    e.phase = RFVP_INPUT_PHASE_UP;
    assert_eq!(
        input_event(&e, SIZE),
        Ok(RfvpEvent::KeyUp { key: KeyCode::Character('x'), modifiers: InputModifiers { bits: 0xf } })
    );
    e.phase = RFVP_INPUT_PHASE_MOVE;
    assert_eq!(input_event(&e, SIZE), Err(RFVP_STATUS_INVALID_ARGUMENT));
}

#[test]
fn text_needs_a_unicode_scalar() {
    assert_eq!(
        input_event(&event(RFVP_INPUT_TEXT, 'é' as u32, 0, 0, 0), SIZE),
        Ok(RfvpEvent::TextInput { ch: 'é' })
    );
    assert_eq!(
        input_event(&event(RFVP_INPUT_TEXT, 0xdfff, 0, 0, 0), SIZE),
        Err(RFVP_STATUS_INVALID_ARGUMENT)
    );
}

#[test]
fn pointer_moves_know_whether_they_are_on_screen() {
    let on = input_event(&event(RFVP_INPUT_POINTER_MOVE, 0, 0, 639, 479), SIZE);
    assert_eq!(on, Ok(RfvpEvent::PointerMove { x: 639, y: 479, in_screen: true }));
    let off = input_event(&event(RFVP_INPUT_POINTER_MOVE, 0, 0, 640, 0), SIZE);
    assert_eq!(off, Ok(RfvpEvent::PointerMove { x: 640, y: 0, in_screen: false }));
    let negative = input_event(&event(RFVP_INPUT_POINTER_MOVE, 0, 0, -1, 5), SIZE);
    assert_eq!(negative, Ok(RfvpEvent::PointerMove { x: -1, y: 5, in_screen: false }));
}

#[test]
fn buttons_wheel_touch_focus_and_quit() {
    assert_eq!(
        input_event(&event(RFVP_INPUT_POINTER_BUTTON, RFVP_POINTER_RIGHT, RFVP_INPUT_PHASE_UP, 1, 2), SIZE),
        Ok(RfvpEvent::PointerUp { button: PointerButton::Right, x: 1, y: 2 })
    );
    assert_eq!(
        input_event(&event(RFVP_INPUT_POINTER_BUTTON, 8, RFVP_INPUT_PHASE_UP, 1, 2), SIZE),
        Err(RFVP_STATUS_INVALID_ARGUMENT)
    );
    assert_eq!(
        input_event(&event(RFVP_INPUT_POINTER_BUTTON, RFVP_POINTER_RIGHT, RFVP_INPUT_PHASE_MOVE, 1, 2), SIZE),
        Err(RFVP_STATUS_INVALID_ARGUMENT)
    );
    assert_eq!(
        input_event(&event(RFVP_INPUT_WHEEL, 0, 0, -3, 4), SIZE),
        Ok(RfvpEvent::Wheel { delta_x: -3, delta_y: 4 })
    );
    assert_eq!(
        input_event(&event(RFVP_INPUT_TOUCH, 0, RFVP_INPUT_PHASE_DOWN, 1, 1), SIZE),
        Ok(RfvpEvent::TouchDown { id: 9, x: 1, y: 1 })
    );
    assert_eq!(
        input_event(&event(RFVP_INPUT_TOUCH, 0, RFVP_INPUT_PHASE_UP, 1, 1), SIZE),
        Ok(RfvpEvent::TouchUp { id: 9, x: 1, y: 1 })
    );
    assert_eq!(
        input_event(&event(RFVP_INPUT_TOUCH, 0, RFVP_INPUT_PHASE_REPEAT, 1, 1), SIZE),
        Err(RFVP_STATUS_INVALID_ARGUMENT)
    );
    assert_eq!(input_event(&event(RFVP_INPUT_FOCUS, 0, 0, 0, 0), SIZE), Ok(RfvpEvent::FocusLost));
    assert_eq!(input_event(&event(RFVP_INPUT_FOCUS, 0, 1, 0, 0), SIZE), Ok(RfvpEvent::FocusGained));
    assert_eq!(input_event(&event(RFVP_INPUT_QUIT, 0, 0, 0, 0), SIZE), Ok(RfvpEvent::Quit));
    assert_eq!(input_event(&event(0, 0, 0, 0, 0), SIZE), Err(RFVP_STATUS_INVALID_ARGUMENT));
}

#[test]
fn short_records_are_refused() {
    let mut e = event(RFVP_INPUT_QUIT, 0, 0, 0, 0);
    e.struct_size = INPUT_EVENT_V1_SIZE as u32 - 1;
    assert_eq!(input_event(&e, SIZE), Err(RFVP_STATUS_INVALID_ARGUMENT));
}

#[test]
fn batches_stop_at_the_first_refusal() {
    let good = event(RFVP_INPUT_QUIT, 0, 0, 0, 0);
    let bad = event(0, 0, 0, 0, 0);
    let (events, status) = input_batch(&[good, good, bad, good], SIZE);
    assert_eq!(events, vec![RfvpEvent::Quit, RfvpEvent::Quit]);
    assert_eq!(status, RFVP_STATUS_INVALID_ARGUMENT);
    let (events, status) = input_batch(&[], SIZE);
    assert!(events.is_empty());
    assert_eq!(status, RFVP_STATUS_OK);
}
