use rfvp::abi::{
    RfvpInputEventV1, RfvpResourcesConfigV1, RfvpRuntimeConfigV1, INPUT_EVENT_V1_SIZE,
    RFVP_AUDIO_PLAY, RFVP_AUDIO_SUBMIT_I16, RFVP_DRAW_IMAGE, RFVP_INPUT_KEY, RFVP_INPUT_PHASE_DOWN,
    RFVP_INPUT_QUIT, RFVP_KEY_ESCAPE, RFVP_NLS_GBK, RFVP_STATUS_BUSY, RFVP_STATUS_INVALID_ARGUMENT,
    RFVP_STATUS_INVALID_DATA, RFVP_STATUS_INVALID_HANDLE, RFVP_STATUS_NO_COMMAND,
    RFVP_STATUS_NO_FRAME, RFVP_STATUS_OK, RFVP_TEXTURE_CREATE, RUNTIME_CAPABILITIES,
};
use rfvp::host_state::{HostState, MAX_INPUT_BATCH};
use rfvp::platform::HostPlatform;
use rfvp::host_types::{
    AudioCommand, AudioParams, AudioStreamId, ColorRgba, CommandBlendMode, DrawImageCmd, KeyCode,
    Nls, PortableTextureDesc, RectI16, RectU16, RenderCommand, RfvpEvent, Rgba8, TextureFormat,
    TextureHandle, TextureRect, Vertex2D,
};
use rfvp::recording::{ExternalFrame, RecordedTextureCommand, RecordedTextureUpdate, RecordingBackend};
use rfvp::resources::{resources_create, resources_mount_directory};
use rfvp::runtime::MAX_PENDING_AUDIO_COMMANDS;

const RUNTIME_CONFIG_LAYOUT: usize = 56;

fn image(texture: u32) -> RenderCommand {
    let one = 1.0f32.to_bits();
    RenderCommand::DrawImage(DrawImageCmd {
        texture: TextureHandle(texture),
        src: RectU16::default(),
        dst: RectI16 { x: 1, y: 2, w: 3, h: 4 },
        color: Rgba8 { r: 1, g: 2, b: 3, a: 4 },
        blend: CommandBlendMode::Normal,
        effect_id: 0,
        clip: None,
        vertices: [Vertex2D {
            position: [0, 0],
            tex_coord: [0, 0],
            color: ColorRgba { r: one, g: one, b: one, a: one },
        }; 4],
    })
}

/// A recorded frame with one texture creation and one image draw.
fn recorded_frame(texture: u32) -> ExternalFrame {
    let mut backend = RecordingBackend::new();
    backend
        .create_texture(
            TextureHandle(texture),
            PortableTextureDesc { width: 1, height: 1, format: TextureFormat::Rgba8 },
            &[9, 9, 9, 9],
        )
        .unwrap();
    backend.begin_frame(8, 8).unwrap();
    backend.submit_commands(&[image(texture)]).unwrap();
    backend.end_frame().unwrap();
    let frame = backend.take_frame();
    ExternalFrame {
        frame,
        textures: backend.creates,
        texture_commands: backend.texture_commands,
    }
}

fn key_event(kind: u32, code: u32) -> RfvpInputEventV1 {
    RfvpInputEventV1 {
        struct_size: INPUT_EVENT_V1_SIZE as u32,
        kind,
        code,
        phase: RFVP_INPUT_PHASE_DOWN,
        x: 0,
        y: 0,
        value: 0,
        modifiers: 0,
        id: 0,
    }
}

#[test]
fn runtime_create_rejects_missing_resources() {
    let state = HostState::new();
    let config = RfvpRuntimeConfigV1 {
        struct_size: RUNTIME_CONFIG_LAYOUT as u32,
        flags: 0,
        resources: 42,
        requested_width: 1280,
        requested_height: 720,
        reserved: [0; 4],
    };
    let mut runtime = 0u64;
    let status = match state.runtime_boot_settings(&config, RUNTIME_CONFIG_LAYOUT) {
        Ok(_) => {
            runtime = 1;
            RFVP_STATUS_OK
        }
        Err(status) => status,
    };
    assert_eq!(status, RFVP_STATUS_INVALID_HANDLE);
    assert_eq!(runtime, 0);
}

#[test]
fn boot_settings_need_a_mounted_game_directory() {
    let mut state = HostState::new();
    let config = RfvpResourcesConfigV1 {
        struct_size: 64,
        flags: 0,
        nls: RFVP_NLS_GBK,
        reserved0: 0,
        save_root_len: 0,
        reserved: [0; 4],
    };
    let resources = resources_create(&mut state.resources, &config, 64, Ok(String::new())).unwrap();
    let mut runtime = RfvpRuntimeConfigV1 {
        struct_size: RUNTIME_CONFIG_LAYOUT as u32,
        flags: 0,
        resources,
        requested_width: 0,
        requested_height: 0,
        reserved: [0; 4],
    };
    assert_eq!(
        state.runtime_boot_settings(&runtime, RUNTIME_CONFIG_LAYOUT),
        Err(RFVP_STATUS_INVALID_DATA)
    );
    assert_eq!(
        resources_mount_directory(&mut state.resources, resources, Ok("/games/a".to_string()), true),
        RFVP_STATUS_OK
    );
    assert_eq!(
        state.runtime_boot_settings(&runtime, RUNTIME_CONFIG_LAYOUT),
        Ok(("/games/a".to_string(), Nls::GBK))
    );
    runtime.struct_size = 8;
    assert_eq!(
        state.runtime_boot_settings(&runtime, RUNTIME_CONFIG_LAYOUT),
        Err(RFVP_STATUS_INVALID_ARGUMENT)
    );
    runtime.struct_size = RUNTIME_CONFIG_LAYOUT as u32;
    runtime.resources = 0;
    assert_eq!(
        state.runtime_boot_settings(&runtime, RUNTIME_CONFIG_LAYOUT),
        Err(RFVP_STATUS_INVALID_HANDLE)
    );
}

#[test]
fn one_frame_at_a_time_until_released() {
    let mut state = HostState::new();
    let runtime = state.runtime_register(640, 480);
    assert_eq!(state.runtime_acquire_frame(runtime), Err(RFVP_STATUS_NO_FRAME));
    assert_eq!(state.runtime_acquire_frame(runtime + 1), Err(RFVP_STATUS_INVALID_HANDLE));

    state.runtime_finish_step(runtime, false, Vec::new(), recorded_frame(5), 640, 480).unwrap();
    let frame = state.runtime_acquire_frame(runtime).unwrap();
    assert_eq!(state.frame_size(frame), Ok((640, 480)));
    let commands = state.frame_commands(frame).unwrap();
    assert_eq!(commands.len(), 1);
    assert_eq!(commands[0].kind, RFVP_DRAW_IMAGE);
    assert_eq!(commands[0].texture_id, 5);
    let textures = state.frame_textures(frame).unwrap();
    assert_eq!(textures.len(), 1);
    assert_eq!(textures[0].kind, RFVP_TEXTURE_CREATE);
    assert_eq!(state.frame_texture_pixels(frame).unwrap()[0], vec![9, 9, 9, 9]);
    assert_eq!(state.frame_hit_proxies(frame).unwrap().len(), 0);

    // A new frame is waiting, but the host still holds the last one.
    state.runtime_finish_step(runtime, false, Vec::new(), recorded_frame(6), 640, 480).unwrap();
    assert_eq!(state.runtime_acquire_frame(runtime), Err(RFVP_STATUS_BUSY));

    state.frame_release(frame);
    assert_eq!(state.frame_size(frame), Err(RFVP_STATUS_INVALID_HANDLE));
    assert_eq!(state.frame_commands(frame).err(), Some(RFVP_STATUS_INVALID_HANDLE));
    let next = state.runtime_acquire_frame(runtime).unwrap();
    assert_ne!(next, frame);
    assert_eq!(state.frame_commands(next).unwrap()[0].texture_id, 6);
}

#[test]
fn releasing_a_stale_frame_keeps_the_held_one() {
    let mut state = HostState::new();
    let runtime = state.runtime_register(4, 4);
    state.runtime_finish_step(runtime, false, Vec::new(), recorded_frame(1), 4, 4).unwrap();
    let first = state.runtime_acquire_frame(runtime).unwrap();
    state.frame_release(first);
    state.runtime_finish_step(runtime, false, Vec::new(), recorded_frame(2), 4, 4).unwrap();
    let second = state.runtime_acquire_frame(runtime).unwrap();
    // Releasing the old handle again is a no-op: the runtime still holds `second`.
    state.frame_release(first);
    state.runtime_finish_step(runtime, false, Vec::new(), recorded_frame(3), 4, 4).unwrap();
    assert_eq!(state.runtime_acquire_frame(runtime), Err(RFVP_STATUS_BUSY));
    state.frame_release(second);
    assert!(state.runtime_acquire_frame(runtime).is_ok());
}

#[test]
fn skipped_frames_keep_their_texture_work() {
    let mut state = HostState::new();
    let runtime = state.runtime_register(4, 4);
    state.runtime_finish_step(runtime, false, Vec::new(), recorded_frame(1), 4, 4).unwrap();
    state.runtime_finish_step(runtime, false, Vec::new(), recorded_frame(2), 4, 4).unwrap();
    let frame = state.runtime_acquire_frame(runtime).unwrap();
    let textures = state.frame_textures(frame).unwrap();
    assert_eq!(textures.len(), 2);
    assert_eq!(textures[0].texture_id, 1);
    assert_eq!(textures[1].texture_id, 2);
    // Only the latest frame's draws are presented.
    let commands = state.frame_commands(frame).unwrap();
    assert_eq!(commands.len(), 1);
    assert_eq!(commands[0].texture_id, 2);
}

#[test]
fn destroyed_runtime_refuses_everything() {
    let mut state = HostState::new();
    let runtime = state.runtime_register(4, 4);
    assert_eq!(RUNTIME_CAPABILITIES, 1102);
    assert_eq!(state.runtime_capabilities(runtime), RUNTIME_CAPABILITIES);
    state.runtime_destroy(runtime);
    assert_eq!(state.runtime_capabilities(runtime), 0);
    assert_eq!(state.runtime_is_exit_requested(runtime), 0);
    assert_eq!(state.runtime_acquire_frame(runtime), Err(RFVP_STATUS_INVALID_HANDLE));
    assert_eq!(state.runtime_poll_audio_command(runtime), Err(RFVP_STATUS_INVALID_HANDLE));
    assert_eq!(
        state.runtime_finish_step(runtime, true, Vec::new(), recorded_frame(1), 4, 4),
        Err(RFVP_STATUS_INVALID_HANDLE)
    );
    assert_eq!(state.runtime_polled_payload(runtime), Err(RFVP_STATUS_INVALID_HANDLE));
}

#[test]
fn exit_request_is_sticky() {
    let mut state = HostState::new();
    let runtime = state.runtime_register(4, 4);
    assert_eq!(state.runtime_is_exit_requested(runtime), 0);
    state.runtime_finish_step(runtime, true, Vec::new(), recorded_frame(1), 4, 4).unwrap();
    assert_eq!(state.runtime_is_exit_requested(runtime), 1);
    state.runtime_finish_step(runtime, false, Vec::new(), recorded_frame(1), 4, 4).unwrap();
    assert_eq!(state.runtime_is_exit_requested(runtime), 1);
}

#[test]
fn audio_is_polled_in_order_with_its_payload() {
    let mut state = HostState::new();
    let runtime = state.runtime_register(4, 4);
    assert_eq!(state.runtime_poll_audio_command(runtime), Err(RFVP_STATUS_NO_COMMAND));
    let audio = vec![
        AudioCommand::SubmitI16 { id: AudioStreamId(2), samples: vec![1, -2] },
        AudioCommand::Play {
            id: AudioStreamId(2),
            params: AudioParams { volume: 0.5f32.to_bits(), pan: 0, repeat: true },
            fade_in_ms: 30,
        },
    ];
    assert_eq!(
        state.runtime_finish_step(runtime, false, audio, recorded_frame(1), 4, 4),
        Ok(false)
    );
    let first = state.runtime_poll_audio_command(runtime).unwrap();
    assert_eq!(first.kind, RFVP_AUDIO_SUBMIT_I16);
    assert_eq!(first.sample_count, 2);
    assert_eq!(first.payload_size, 4);
    assert_eq!(state.runtime_polled_payload(runtime).unwrap(), &[1, 0, 0xfe, 0xff]);
    let second = state.runtime_poll_audio_command(runtime).unwrap();
    assert_eq!(second.kind, RFVP_AUDIO_PLAY);
    assert_eq!(second.volume, 0.5f32.to_bits());
    assert_eq!(second.repeat, 1);
    assert_eq!(second.fade_ms, 30);
    assert_eq!(state.runtime_polled_payload(runtime).unwrap().len(), 0);
    assert_eq!(state.runtime_poll_audio_command(runtime), Err(RFVP_STATUS_NO_COMMAND));
}

#[test]
fn audio_queue_drops_past_capacity_and_reports_once() {
    let mut state = HostState::new();
    let runtime = state.runtime_register(4, 4);
    let burst: Vec<AudioCommand> = (0..MAX_PENDING_AUDIO_COMMANDS as u32 + 5)
        .map(|i| AudioCommand::Pause { id: AudioStreamId(i) })
        .collect();
    assert_eq!(
        state.runtime_finish_step(runtime, false, burst, recorded_frame(1), 4, 4),
        Ok(true)
    );
    let more = vec![AudioCommand::Resume { id: AudioStreamId(0) }];
    assert_eq!(
        state.runtime_finish_step(runtime, false, more, recorded_frame(1), 4, 4),
        Ok(false)
    );
    let mut polled = 0usize;
    let mut last_stream = 0u32;
    while let Ok(record) = state.runtime_poll_audio_command(runtime) {
        polled += 1;
        last_stream = record.stream_id;
    }
    assert_eq!(polled, MAX_PENDING_AUDIO_COMMANDS);
    assert_eq!(last_stream, MAX_PENDING_AUDIO_COMMANDS as u32 - 1);
}

#[test]
fn input_batches_are_checked_then_translated_in_order() {
    let mut state = HostState::new();
    let runtime = state.runtime_register(4, 4);
    let too_many = vec![key_event(RFVP_INPUT_QUIT, 0); MAX_INPUT_BATCH + 1];
    let (events, status) = state.runtime_input_batch(runtime, &too_many);
    assert!(events.is_empty());
    assert_eq!(status, RFVP_STATUS_INVALID_ARGUMENT);

    let batch = vec![
        key_event(RFVP_INPUT_KEY, RFVP_KEY_ESCAPE),
        key_event(RFVP_INPUT_QUIT, 0),
        key_event(99, 0),
        key_event(RFVP_INPUT_QUIT, 0),
    ];
    let (events, status) = state.runtime_input_batch(runtime + 1, &batch);
    assert!(events.is_empty());
    assert_eq!(status, RFVP_STATUS_INVALID_HANDLE);

    let (events, status) = state.runtime_input_batch(runtime, &batch);
    assert_eq!(status, RFVP_STATUS_INVALID_ARGUMENT);
    assert_eq!(events.len(), 2);
    assert!(matches!(events[0], RfvpEvent::KeyDown { key: KeyCode::Escape, repeat: false, .. }));
    assert_eq!(events[1], RfvpEvent::Quit);

    let (events, status) = state.runtime_input_batch(runtime, &batch[..2]);
    assert_eq!(status, RFVP_STATUS_OK);
    assert_eq!(events.len(), 2);
}

#[test]
fn frames_with_oversized_update_rows_cannot_be_handed_out() {
    let mut state = HostState::new();
    let runtime = state.runtime_register(4, 4);
    assert!(state.runtime_pending_frame_fits(runtime));
    let mut frame = recorded_frame(1);
    frame.texture_commands.push(RecordedTextureCommand::Update(RecordedTextureUpdate {
        handle: TextureHandle(1),
        rect: TextureRect { x: 0, y: 0, width: u32::MAX, height: 1 },
        format: TextureFormat::Rgba8,
        pixels: Vec::new(),
        generation: 2,
    }));
    state.runtime_finish_step(runtime, false, Vec::new(), frame, 4, 4).unwrap();
    assert!(!state.runtime_pending_frame_fits(runtime));
    state.runtime_finish_step(runtime, false, Vec::new(), recorded_frame(2), 4, 4).unwrap();
    assert!(!state.runtime_pending_frame_fits(runtime));
    assert!(state.runtime_pending_frame_fits(runtime + 1));
}

#[test]
fn a_step_moves_the_clock_only_for_a_live_runtime() {
    let mut state = HostState::new();
    let runtime = state.runtime_register(4, 4);
    let mut platform = HostPlatform::new("/games/a");
    assert_eq!(state.runtime_begin_step(runtime, &mut platform, 0), RFVP_STATUS_OK);
    assert_eq!(platform.clock.ticks_us(), 1_000);
    assert_eq!(state.runtime_begin_step(runtime, &mut platform, 16), RFVP_STATUS_OK);
    assert_eq!(platform.clock.ticks_us(), 17_000);
    state.runtime_destroy(runtime);
    assert_eq!(state.runtime_begin_step(runtime, &mut platform, 16), RFVP_STATUS_INVALID_HANDLE);
    assert_eq!(platform.clock.ticks_us(), 17_000);
}
