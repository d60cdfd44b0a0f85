//! Conversion of ABI input records into engine input events.
use crate::abi::{
    RfvpInputEventV1, INPUT_EVENT_V1_SIZE, RFVP_INPUT_FOCUS, RFVP_INPUT_KEY,
    RFVP_INPUT_PHASE_DOWN, RFVP_INPUT_PHASE_MOVE, RFVP_INPUT_PHASE_REPEAT, RFVP_INPUT_PHASE_UP,
    RFVP_INPUT_POINTER_BUTTON, RFVP_INPUT_POINTER_MOVE, RFVP_INPUT_QUIT, RFVP_INPUT_TEXT,
    RFVP_INPUT_TOUCH, RFVP_INPUT_WHEEL, RFVP_KEY_ALT, RFVP_KEY_BACKSPACE, RFVP_KEY_CONTROL,
    RFVP_KEY_DELETE, RFVP_KEY_DOWN, RFVP_KEY_END, RFVP_KEY_ESCAPE, RFVP_KEY_HOME, RFVP_KEY_INSERT,
    RFVP_KEY_LEFT, RFVP_KEY_PAGE_DOWN, RFVP_KEY_PAGE_UP, RFVP_KEY_RETURN, RFVP_KEY_RIGHT,
    RFVP_KEY_SHIFT, RFVP_KEY_SPACE, RFVP_KEY_TAB, RFVP_KEY_UP, RFVP_POINTER_LEFT,
    RFVP_POINTER_MIDDLE, RFVP_POINTER_RIGHT, RFVP_STATUS_INVALID_ARGUMENT, RFVP_STATUS_OK,
};
use crate::host_types::{InputModifiers, KeyCode, PointerButton, RfvpEvent};
use crate::unicode::{char_from_u32, is_control};
use vstd::prelude::*;

verus! {

/// The pointer button an ABI button code names.
pub open spec fn pointer_button_spec(code: u32) -> Option<PointerButton> {
    if code == RFVP_POINTER_LEFT {
        Some(PointerButton::Left)
    } else if code == RFVP_POINTER_RIGHT {
        Some(PointerButton::Right)
    } else if code == RFVP_POINTER_MIDDLE {
        Some(PointerButton::Middle)
    } else {
        None
    }
}

/// The left, right and middle button codes name the buttons of the same
/// names, and no other code names a button.
pub proof fn lemma_pointer_button_codes(code: u32)
    ensures
        pointer_button_spec(RFVP_POINTER_LEFT) == Some(PointerButton::Left),
        pointer_button_spec(RFVP_POINTER_RIGHT) == Some(PointerButton::Right),
        pointer_button_spec(RFVP_POINTER_MIDDLE) == Some(PointerButton::Middle),
        pointer_button_spec(code) is Some <==> (code == RFVP_POINTER_LEFT || code
            == RFVP_POINTER_RIGHT || code == RFVP_POINTER_MIDDLE),
{
}

pub fn pointer_button(code: u32) -> (r: Option<PointerButton>)
    ensures
        r == pointer_button_spec(code),
        code == RFVP_POINTER_LEFT ==> r == Some(PointerButton::Left),
        code == RFVP_POINTER_RIGHT ==> r == Some(PointerButton::Right),
        code == RFVP_POINTER_MIDDLE ==> r == Some(PointerButton::Middle),
        code != RFVP_POINTER_LEFT && code != RFVP_POINTER_RIGHT && code != RFVP_POINTER_MIDDLE
            ==> r is None,
{
    if code == RFVP_POINTER_LEFT {
        Some(PointerButton::Left)
    } else if code == RFVP_POINTER_RIGHT {
        Some(PointerButton::Right)
    } else if code == RFVP_POINTER_MIDDLE {
        Some(PointerButton::Middle)
    } else {
        None
    }
}

/// The named key an ABI key code stands for, if it is one of the named keys.
pub open spec fn named_key(code: u32) -> Option<KeyCode> {
    if code == RFVP_KEY_ESCAPE {
        Some(KeyCode::Escape)
    } else if code == RFVP_KEY_RETURN {
        Some(KeyCode::Return)
    } else if code == RFVP_KEY_SPACE {
        Some(KeyCode::Space)
    } else if code == RFVP_KEY_BACKSPACE {
        Some(KeyCode::Backspace)
    } else if code == RFVP_KEY_TAB {
        Some(KeyCode::Tab)
    } else if code == RFVP_KEY_LEFT {
        Some(KeyCode::Left)
    } else if code == RFVP_KEY_RIGHT {
        Some(KeyCode::Right)
    } else if code == RFVP_KEY_UP {
        Some(KeyCode::Up)
    } else if code == RFVP_KEY_DOWN {
        Some(KeyCode::Down)
    } else if code == RFVP_KEY_PAGE_UP {
        Some(KeyCode::PageUp)
    } else if code == RFVP_KEY_PAGE_DOWN {
        Some(KeyCode::PageDown)
    } else if code == RFVP_KEY_HOME {
        Some(KeyCode::Home)
    } else if code == RFVP_KEY_END {
        Some(KeyCode::End)
    } else if code == RFVP_KEY_INSERT {
        Some(KeyCode::Insert)
    } else if code == RFVP_KEY_DELETE {
        Some(KeyCode::Delete)
    } else if code == RFVP_KEY_SHIFT {
        Some(KeyCode::Shift)
    } else if code == RFVP_KEY_CONTROL {
        Some(KeyCode::Control)
    } else if code == RFVP_KEY_ALT {
        Some(KeyCode::Alt)
    } else {
        None
    }
}

/// The key an ABI key code stands for: a named key, else the printable
/// character with that scalar value, else an unknown key carrying the code.
pub open spec fn key_code_spec(code: u32) -> KeyCode {
    match named_key(code) {
        Some(k) => k,
        None => if is_unicode_scalar_code(code) && !crate::unicode::char_is_control(
            crate::unicode::char_of(code),
        ) {
            KeyCode::Character(crate::unicode::char_of(code))
        } else {
            KeyCode::Unknown(code)
        },
    }
}

/// Whether a key is the one a code names: each named key code gives the key
/// of the same name, and a key that is not named carries the code itself
/// (as an unknown key) or is a character.
pub open spec fn key_code_names(code: u32, k: KeyCode) -> bool {
    &&& code == RFVP_KEY_ESCAPE ==> k == KeyCode::Escape
    &&& code == RFVP_KEY_RETURN ==> k == KeyCode::Return
    &&& code == RFVP_KEY_SPACE ==> k == KeyCode::Space
    &&& code == RFVP_KEY_BACKSPACE ==> k == KeyCode::Backspace
    &&& code == RFVP_KEY_TAB ==> k == KeyCode::Tab
    &&& code == RFVP_KEY_LEFT ==> k == KeyCode::Left
    &&& code == RFVP_KEY_RIGHT ==> k == KeyCode::Right
    &&& code == RFVP_KEY_UP ==> k == KeyCode::Up
    &&& code == RFVP_KEY_DOWN ==> k == KeyCode::Down
    &&& code == RFVP_KEY_PAGE_UP ==> k == KeyCode::PageUp
    &&& code == RFVP_KEY_PAGE_DOWN ==> k == KeyCode::PageDown
    &&& code == RFVP_KEY_HOME ==> k == KeyCode::Home
    &&& code == RFVP_KEY_END ==> k == KeyCode::End
    &&& code == RFVP_KEY_INSERT ==> k == KeyCode::Insert
    &&& code == RFVP_KEY_DELETE ==> k == KeyCode::Delete
    &&& code == RFVP_KEY_SHIFT ==> k == KeyCode::Shift
    &&& code == RFVP_KEY_CONTROL ==> k == KeyCode::Control
    &&& code == RFVP_KEY_ALT ==> k == KeyCode::Alt
    &&& k matches KeyCode::Unknown(u) ==> u == code
}

/// Every key code is read as the key it names: named codes give their keys,
/// and an unknown key carries the code it came from.
pub proof fn lemma_key_code_names(code: u32)
    ensures
        key_code_names(code, key_code_spec(code)),
{
}

/// Whether a code is a Unicode scalar value.
pub open spec fn is_unicode_scalar_code(code: u32) -> bool {
    crate::unicode::is_unicode_scalar(code)
}

pub fn key_code(code: u32) -> (k: KeyCode)
    ensures
        k == key_code_spec(code),
        key_code_names(code, k),
        k matches KeyCode::Character(c) ==> c as u32 == code && !crate::unicode::char_is_control(
            c,
        ),
{
    if code == RFVP_KEY_ESCAPE {
        KeyCode::Escape
    } else if code == RFVP_KEY_RETURN {
        KeyCode::Return
    } else if code == RFVP_KEY_SPACE {
        KeyCode::Space
    } else if code == RFVP_KEY_BACKSPACE {
        KeyCode::Backspace
    } else if code == RFVP_KEY_TAB {
        KeyCode::Tab
    } else if code == RFVP_KEY_LEFT {
        KeyCode::Left
    } else if code == RFVP_KEY_RIGHT {
        KeyCode::Right
    } else if code == RFVP_KEY_UP {
        KeyCode::Up
    } else if code == RFVP_KEY_DOWN {
        KeyCode::Down
    } else if code == RFVP_KEY_PAGE_UP {
        KeyCode::PageUp
    } else if code == RFVP_KEY_PAGE_DOWN {
        KeyCode::PageDown
    } else if code == RFVP_KEY_HOME {
        KeyCode::Home
    } else if code == RFVP_KEY_END {
        KeyCode::End
    } else if code == RFVP_KEY_INSERT {
        KeyCode::Insert
    } else if code == RFVP_KEY_DELETE {
        KeyCode::Delete
    } else if code == RFVP_KEY_SHIFT {
        KeyCode::Shift
    } else if code == RFVP_KEY_CONTROL {
        KeyCode::Control
    } else if code == RFVP_KEY_ALT {
        KeyCode::Alt
    } else {
        match char_from_u32(code) {
            Some(ch) => {
                proof {
                    crate::unicode::lemma_char_of_scalar(ch);
                }
                if !is_control(ch) {
                    KeyCode::Character(ch)
                } else {
                    KeyCode::Unknown(code)
                }
            },
            None => KeyCode::Unknown(code),
        }
    }
}

/// What `input_event` gives for an ABI input record and the runtime's virtual size.
pub open spec fn input_event_spec(event: RfvpInputEventV1, width: u32, height: u32) -> Result<
    RfvpEvent,
    i32,
> {
    let modifiers = InputModifiers { bits: event.modifiers & 0xf };
    if (event.struct_size as int) < INPUT_EVENT_V1_SIZE {
        Err(RFVP_STATUS_INVALID_ARGUMENT)
    } else if event.kind == RFVP_INPUT_KEY {
        if event.phase == RFVP_INPUT_PHASE_DOWN || event.phase == RFVP_INPUT_PHASE_REPEAT {
            Ok(
                RfvpEvent::KeyDown {
                    key: key_code_spec(event.code),
                    repeat: event.phase == RFVP_INPUT_PHASE_REPEAT,
                    modifiers,
                },
            )
        } else if event.phase == RFVP_INPUT_PHASE_UP {
            Ok(RfvpEvent::KeyUp { key: key_code_spec(event.code), modifiers })
        } else {
            Err(RFVP_STATUS_INVALID_ARGUMENT)
        }
    } else if event.kind == RFVP_INPUT_TEXT {
        if is_unicode_scalar_code(event.code) {
            Ok(RfvpEvent::TextInput { ch: crate::unicode::char_of(event.code) })
        } else {
            Err(RFVP_STATUS_INVALID_ARGUMENT)
        }
    } else if event.kind == RFVP_INPUT_POINTER_MOVE {
        Ok(
            RfvpEvent::PointerMove {
                x: event.x,
                y: event.y,
                in_screen: event.x >= 0 && event.y >= 0 && event.x < (width as i32) && event.y < (
                height as i32),
            },
        )
    } else if event.kind == RFVP_INPUT_POINTER_BUTTON {
        match pointer_button_spec(event.code) {
            Some(button) => if event.phase == RFVP_INPUT_PHASE_DOWN {
                Ok(RfvpEvent::PointerDown { button, x: event.x, y: event.y })
            } else if event.phase == RFVP_INPUT_PHASE_UP {
                Ok(RfvpEvent::PointerUp { button, x: event.x, y: event.y })
            } else {
                Err(RFVP_STATUS_INVALID_ARGUMENT)
            },
            None => Err(RFVP_STATUS_INVALID_ARGUMENT),
        }
    } else if event.kind == RFVP_INPUT_WHEEL {
        Ok(RfvpEvent::Wheel { delta_x: event.x, delta_y: event.y })
    } else if event.kind == RFVP_INPUT_TOUCH {
        if event.phase == RFVP_INPUT_PHASE_DOWN {
            Ok(RfvpEvent::TouchDown { id: event.id, x: event.x, y: event.y })
        } else if event.phase == RFVP_INPUT_PHASE_MOVE {
            Ok(RfvpEvent::TouchMove { id: event.id, x: event.x, y: event.y })
        } else if event.phase == RFVP_INPUT_PHASE_UP {
            Ok(RfvpEvent::TouchUp { id: event.id, x: event.x, y: event.y })
        } else {
            Err(RFVP_STATUS_INVALID_ARGUMENT)
        }
    } else if event.kind == RFVP_INPUT_FOCUS {
        if event.phase == 0 {
            Ok(RfvpEvent::FocusLost)
        } else {
            Ok(RfvpEvent::FocusGained)
        }
    } else if event.kind == RFVP_INPUT_QUIT {
        Ok(RfvpEvent::Quit)
    } else {
        Err(RFVP_STATUS_INVALID_ARGUMENT)
    }
}

/// Whether an engine event is one that an ABI record of this kind and phase
/// stands for, carrying the record's own fields: a pointer or wheel event
/// carries the record's `x` and `y`, a touch event its `id`, `x` and `y`, a
/// key event says a repeat exactly when the record's phase is a repeat.
pub open spec fn event_matches_record(event: RfvpInputEventV1, e: RfvpEvent) -> bool {
    match e {
        RfvpEvent::KeyDown { repeat, .. } => event.kind == RFVP_INPUT_KEY && (event.phase
            == RFVP_INPUT_PHASE_DOWN || event.phase == RFVP_INPUT_PHASE_REPEAT) && repeat == (
        event.phase == RFVP_INPUT_PHASE_REPEAT),
        RfvpEvent::KeyUp { .. } => event.kind == RFVP_INPUT_KEY && event.phase
            == RFVP_INPUT_PHASE_UP,
        RfvpEvent::TextInput { .. } => event.kind == RFVP_INPUT_TEXT,
        RfvpEvent::PointerMove { x, y, .. } => event.kind == RFVP_INPUT_POINTER_MOVE && x
            == event.x && y == event.y,
        RfvpEvent::PointerDown { x, y, .. } => event.kind == RFVP_INPUT_POINTER_BUTTON
            && event.phase == RFVP_INPUT_PHASE_DOWN && x == event.x && y == event.y,
        RfvpEvent::PointerUp { x, y, .. } => event.kind == RFVP_INPUT_POINTER_BUTTON
            && event.phase == RFVP_INPUT_PHASE_UP && x == event.x && y == event.y,
        RfvpEvent::Wheel { delta_x, delta_y } => event.kind == RFVP_INPUT_WHEEL && delta_x
            == event.x && delta_y == event.y,
        RfvpEvent::TouchDown { id, x, y } => event.kind == RFVP_INPUT_TOUCH && event.phase
            == RFVP_INPUT_PHASE_DOWN && id == event.id && x == event.x && y == event.y,
        RfvpEvent::TouchMove { id, x, y } => event.kind == RFVP_INPUT_TOUCH && event.phase
            == RFVP_INPUT_PHASE_MOVE && id == event.id && x == event.x && y == event.y,
        RfvpEvent::TouchUp { id, x, y } => event.kind == RFVP_INPUT_TOUCH && event.phase
            == RFVP_INPUT_PHASE_UP && id == event.id && x == event.x && y == event.y,
        RfvpEvent::FocusLost => event.kind == RFVP_INPUT_FOCUS && event.phase == 0,
        RfvpEvent::FocusGained => event.kind == RFVP_INPUT_FOCUS && event.phase != 0,
        RfvpEvent::Quit => event.kind == RFVP_INPUT_QUIT,
    }
}

/// Which full-size records are always accepted: pointer moves, wheels,
/// focus changes, quits, and touches in the down, move or up phase.
pub open spec fn always_accepted(event: RfvpInputEventV1) -> bool {
    &&& (event.struct_size as int) >= INPUT_EVENT_V1_SIZE
    &&& {
        ||| event.kind == RFVP_INPUT_POINTER_MOVE
        ||| event.kind == RFVP_INPUT_WHEEL
        ||| event.kind == RFVP_INPUT_FOCUS
        ||| event.kind == RFVP_INPUT_QUIT
        ||| event.kind == RFVP_INPUT_TOUCH && (event.phase == RFVP_INPUT_PHASE_DOWN || event.phase
            == RFVP_INPUT_PHASE_MOVE || event.phase == RFVP_INPUT_PHASE_UP)
    }
}

/// Every event converted from an input record is of the kind and phase the
/// record names and carries the record's own coordinates and touch id,
/// whatever the phase; records that are too short are refused; and pointer
/// moves, wheels, focus changes, quits and touches in a known phase are
/// always converted; a pointer move is on screen exactly when it lies inside
/// the virtual size.
pub proof fn lemma_input_event_keeps_record(event: RfvpInputEventV1, width: u32, height: u32)
    ensures
        input_event_spec(event, width, height) matches Ok(e) ==> event_matches_record(event, e),
        (event.struct_size as int) < INPUT_EVENT_V1_SIZE ==> input_event_spec(event, width, height)
            == Err::<RfvpEvent, i32>(RFVP_STATUS_INVALID_ARGUMENT),
        always_accepted(event) ==> input_event_spec(event, width, height) is Ok,
        width <= i32::MAX && height <= i32::MAX ==> (input_event_spec(event, width, height) matches Ok(
            RfvpEvent::PointerMove { in_screen, .. },
        ) ==> (in_screen <==> (0 <= event.x < width && 0 <= event.y < height))),
{
}

/// Converts one ABI input record; malformed records are refused with the
/// invalid-argument status.
pub fn input_event(event: &RfvpInputEventV1, virtual_size: (u32, u32)) -> (r: Result<
    RfvpEvent,
    i32,
>)
    ensures
        r == input_event_spec(*event, virtual_size.0, virtual_size.1),
        r matches Ok(e) ==> event_matches_record(*event, e),
        always_accepted(*event) ==> r is Ok,
        virtual_size.0 <= i32::MAX && virtual_size.1 <= i32::MAX ==> (r matches Ok(
            RfvpEvent::PointerMove { in_screen, .. },
        ) ==> (in_screen <==> (0 <= event.x < virtual_size.0 && 0 <= event.y < virtual_size.1))),
{
    if (event.struct_size as usize) < INPUT_EVENT_V1_SIZE {
        return Err(RFVP_STATUS_INVALID_ARGUMENT);
    }
    let modifiers = InputModifiers::from_bits(event.modifiers);
    let event = *event;
    let result = if event.kind == RFVP_INPUT_KEY {
        if event.phase == RFVP_INPUT_PHASE_DOWN || event.phase == RFVP_INPUT_PHASE_REPEAT {
            RfvpEvent::KeyDown {
                key: key_code(event.code),
                repeat: event.phase == RFVP_INPUT_PHASE_REPEAT,
                modifiers,
            }
        } else if event.phase == RFVP_INPUT_PHASE_UP {
            RfvpEvent::KeyUp { key: key_code(event.code), modifiers }
        } else {
            return Err(RFVP_STATUS_INVALID_ARGUMENT);
        }
    } else if event.kind == RFVP_INPUT_TEXT {
        let ch = match char_from_u32(event.code) {
            Some(ch) => ch,
            None => return Err(RFVP_STATUS_INVALID_ARGUMENT),
        };
        proof {
            crate::unicode::lemma_char_of_scalar(ch);
        }
        RfvpEvent::TextInput { ch }
    } else if event.kind == RFVP_INPUT_POINTER_MOVE {
        RfvpEvent::PointerMove {
            x: event.x,
            y: event.y,
            in_screen: event.x >= 0 && event.y >= 0 && event.x < virtual_size.0 as i32 && event.y
                < virtual_size.1 as i32,
        }
    } else if event.kind == RFVP_INPUT_POINTER_BUTTON {
        let button = match pointer_button(event.code) {
            Some(button) => button,
            None => return Err(RFVP_STATUS_INVALID_ARGUMENT),
        };
        if event.phase == RFVP_INPUT_PHASE_DOWN {
            RfvpEvent::PointerDown { button, x: event.x, y: event.y }
        } else if event.phase == RFVP_INPUT_PHASE_UP {
            RfvpEvent::PointerUp { button, x: event.x, y: event.y }
        } else {
            return Err(RFVP_STATUS_INVALID_ARGUMENT);
        }
    } else if event.kind == RFVP_INPUT_WHEEL {
        RfvpEvent::Wheel { delta_x: event.x, delta_y: event.y }
    } else if event.kind == RFVP_INPUT_TOUCH {
        if event.phase == RFVP_INPUT_PHASE_DOWN {
            RfvpEvent::TouchDown { id: event.id, x: event.x, y: event.y }
        } else if event.phase == RFVP_INPUT_PHASE_MOVE {
            RfvpEvent::TouchMove { id: event.id, x: event.x, y: event.y }
        } else if event.phase == RFVP_INPUT_PHASE_UP {
            RfvpEvent::TouchUp { id: event.id, x: event.x, y: event.y }
        } else {
            return Err(RFVP_STATUS_INVALID_ARGUMENT);
        }
    } else if event.kind == RFVP_INPUT_FOCUS {
        if event.phase == 0 {
            RfvpEvent::FocusLost
        } else {
            RfvpEvent::FocusGained
        }
    } else if event.kind == RFVP_INPUT_QUIT {
        RfvpEvent::Quit
    } else {
        return Err(RFVP_STATUS_INVALID_ARGUMENT);
    };
    Ok(result)
}

/// Converts a batch of ABI input records in order, stopping at the first
/// record that is refused. Returns the events converted before it, and the
/// status of the batch: the refusal, or OK when every record converted.
pub fn input_batch(events: &[RfvpInputEventV1], virtual_size: (u32, u32)) -> (r: (
    Vec<RfvpEvent>,
    i32,
))
    ensures
        r.0@.len() <= events@.len(),
        forall|i: int|
            0 <= i < r.0@.len() ==> input_event_spec(events@[i], virtual_size.0, virtual_size.1)
                == Ok::<RfvpEvent, i32>(#[trigger] r.0@[i]),
        r.0@.len() == events@.len() ==> r.1 == RFVP_STATUS_OK,
        r.0@.len() < events@.len() ==> input_event_spec(
            events@[r.0@.len() as int],
            virtual_size.0,
            virtual_size.1,
        ) == Err::<RfvpEvent, i32>(r.1),
{
    let mut out: Vec<RfvpEvent> = Vec::new();
    let mut i: usize = 0;
    while i < events.len()
        invariant
            i <= events@.len(),
            out@.len() == i,
            forall|j: int|
                0 <= j < i ==> input_event_spec(events@[j], virtual_size.0, virtual_size.1) == Ok::<
                    RfvpEvent,
                    i32,
                >(#[trigger] out@[j]),
        decreases events@.len() - i,
    {
        match input_event(&events[i], virtual_size) {
            Ok(event) => out.push(event),
            Err(status) => return (out, status),
        }
        i = i + 1;
    }
    (out, RFVP_STATUS_OK)
}

} // verus!
