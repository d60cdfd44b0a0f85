use rfvp::abi::{
    RfvpInputEventV1, RfvpResourcesConfigV1, INPUT_EVENT_V1_SIZE, RFVP_AUDIO_ENCODED_OGG,
    RFVP_AUDIO_LOAD_ENCODED, RFVP_INPUT_KEY, RFVP_INPUT_PHASE_DOWN, RFVP_INPUT_PHASE_MOVE,
    RFVP_INPUT_POINTER_BUTTON, RFVP_INPUT_TOUCH, RFVP_INVALID_HANDLE, RFVP_KEY_RETURN,
    RFVP_NLS_SHIFT_JIS, RFVP_POINTER_LEFT, RFVP_STATUS_INVALID_HANDLE, RFVP_STATUS_NOT_FOUND,
    RFVP_STATUS_OK,
};
use rfvp::audio::pending_audio_command;
use rfvp::host_types::{
    AudioCommand, AudioStreamId, EncodedAudioKind, InputModifiers, KeyCode, PointerButton,
    RfvpEvent,
};
use rfvp::input::input_event;
use rfvp::resources::{resources_create, resources_destroy, resources_mount_directory, HostResources};
use rfvp::HandleRegistry;

/// Size in bytes of the C layout of the resources configuration on a 64-bit host.
const RESOURCES_CONFIG_LAYOUT: usize = 64;

fn resources_config() -> RfvpResourcesConfigV1 {
    RfvpResourcesConfigV1 {
        struct_size: RESOURCES_CONFIG_LAYOUT as u32,
        flags: 0,
        nls: RFVP_NLS_SHIFT_JIS,
        reserved0: 0,
        save_root_len: 0,
        reserved: [0; 4],
    }
}

#[test]
fn resources_round_trip_and_missing_mount_is_reported() {
    let mut registry = HandleRegistry::<HostResources>::new();
    let config = resources_config();
    let created = resources_create(&mut registry, &config, RESOURCES_CONFIG_LAYOUT, Ok(String::new()));
    let status = match created {
        Ok(_) => RFVP_STATUS_OK,
        Err(status) => status,
    };
    let resources = created.unwrap_or(RFVP_INVALID_HANDLE);
    assert_eq!(status, RFVP_STATUS_OK);
    assert_ne!(resources, RFVP_INVALID_HANDLE);

    let path = "/rfvp/does-not-exist";
    let is_dir = std::path::Path::new(path).is_dir();
    let status = resources_mount_directory(&mut registry, resources, Ok(path.to_string()), is_dir);
    assert_eq!(status, RFVP_STATUS_NOT_FOUND);

    resources_destroy(&mut registry, resources);
    let status = resources_mount_directory(&mut registry, resources, Ok(path.to_string()), is_dir);
    assert_eq!(status, RFVP_STATUS_INVALID_HANDLE);
}

#[test]
fn audio_command_conversion_preserves_stream_and_payload() {
    let pending = pending_audio_command(AudioCommand::LoadEncoded {
        id: AudioStreamId::bgm(3),
        kind: EncodedAudioKind::Ogg,
        bytes: vec![1, 2, 3, 4],
    });

    assert_eq!(pending.command.kind, RFVP_AUDIO_LOAD_ENCODED);
    assert_eq!(pending.command.stream_id, 3);
    assert_eq!(pending.command.encoded_kind, RFVP_AUDIO_ENCODED_OGG);
    assert_eq!(pending.command.payload_size, 4);
    assert_eq!(pending.payload, vec![1, 2, 3, 4]);
}

#[test]
fn input_conversion_maps_keys_pointer_and_touch() {
    let key = RfvpInputEventV1 {
        struct_size: INPUT_EVENT_V1_SIZE as u32,
        kind: RFVP_INPUT_KEY,
        code: RFVP_KEY_RETURN,
        phase: RFVP_INPUT_PHASE_DOWN,
        x: 0,
        y: 0,
        value: 0,
        modifiers: 0,
        id: 0,
    };
    assert_eq!(
        input_event(&key, (1280, 720)),
        Ok(RfvpEvent::KeyDown {
            key: KeyCode::Return,
            repeat: false,
            modifiers: InputModifiers::empty(),
        })
    );

    let pointer = RfvpInputEventV1 {
        struct_size: INPUT_EVENT_V1_SIZE as u32,
        kind: RFVP_INPUT_POINTER_BUTTON,
        code: RFVP_POINTER_LEFT,
        phase: RFVP_INPUT_PHASE_DOWN,
        x: 12,
        y: 34,
        value: 0,
        modifiers: 0,
        id: 0,
    };
    assert_eq!(
        input_event(&pointer, (1280, 720)),
        Ok(RfvpEvent::PointerDown {
            button: PointerButton::Left,
            x: 12,
            y: 34,
        })
    );

    let touch = RfvpInputEventV1 {
        struct_size: INPUT_EVENT_V1_SIZE as u32,
        kind: RFVP_INPUT_TOUCH,
        code: 0,
        phase: RFVP_INPUT_PHASE_MOVE,
        x: 5,
        y: 6,
        value: 0,
        modifiers: 0,
        id: 7,
    };
    assert_eq!(
        input_event(&touch, (1280, 720)),
        Ok(RfvpEvent::TouchMove { id: 7, x: 5, y: 6 })
    );
}
