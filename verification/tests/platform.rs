use rfvp::audio::HostAudio;
use rfvp::host_types::{
    AudioCommand, AudioParams, AudioSampleFormat, AudioStreamDesc, AudioStreamId, EncodedAudioKind,
    RfvpError, RfvpFileInfo, RfvpFileKind,
};
use rfvp::platform::{
    eq_ignore_ascii_case, file_kind, has_parent_part, io_failure, HostFileSystem, HostPlatform,
    PathPart,
};
use rfvp::renderer::HostClock;

#[test]
fn relative_paths_resolve_under_the_game_root() {
    let fs = HostFileSystem::new("/games/a");
    assert_eq!(fs.resolve("data/x.hcb"), Ok("/games/a/data/x.hcb".to_string()));
    assert_eq!(fs.resolve("./x.hcb"), Ok("/games/a/./x.hcb".to_string()));
}

#[test]
fn absolute_paths_must_lie_under_the_root() {
    let fs = HostFileSystem::new("/games/a");
    assert_eq!(fs.resolve("/games/a/data"), Ok("/games/a/data".to_string()));
    assert_eq!(fs.resolve("/games/b/data"), Err(RfvpError::InvalidArgument));
}

#[test]
fn parent_components_are_refused() {
    let fs = HostFileSystem::new("/games/a");
    assert_eq!(fs.resolve("../secret"), Err(RfvpError::InvalidArgument));
    assert_eq!(fs.resolve("data/../../secret"), Err(RfvpError::InvalidArgument));
    assert_eq!(fs.resolve("/games/a/../b"), Err(RfvpError::InvalidArgument));
}

#[test]
fn parent_part_detection() {
    assert!(!has_parent_part(&[]));
    assert!(!has_parent_part(&[PathPart::Root, PathPart::Normal, PathPart::Current]));
    assert!(has_parent_part(&[PathPart::Normal, PathPart::Parent]));
}

#[test]
fn ascii_case_insensitive_matching() {
    assert!(eq_ignore_ascii_case("HCB", "hcb"));
    assert!(eq_ignore_ascii_case("", ""));
    assert!(!eq_ignore_ascii_case("hcb", "hcbx"));
    assert!(!eq_ignore_ascii_case("hcb", "hca"));
    // Only ASCII letters fold.
    assert!(!eq_ignore_ascii_case("Ä", "ä"));
    assert!(eq_ignore_ascii_case("Ä", "Ä"));
    assert!(!eq_ignore_ascii_case("@", "`"));
}

#[test]
fn enumeration_reports_files_with_the_wanted_extension() {
    let fs = HostFileSystem::new("/games/a");
    assert!(fs.is_wanted_entry("/games/a/script.HCB", true, "hcb"));
    assert!(!fs.is_wanted_entry("/games/a/script.hcb", false, "hcb"));
    assert!(!fs.is_wanted_entry("/games/a/script", true, "hcb"));
    assert!(!fs.is_wanted_entry("/games/a/script.hcbx", true, "hcb"));
}

#[test]
fn enumerated_names_are_relative_with_slashes() {
    let fs = HostFileSystem::new("/games/a");
    assert_eq!(fs.entry_name("/games/a/sub/x.hcb"), "sub/x.hcb");
    assert_eq!(fs.entry_name("/games/a/sub\\x.hcb"), "sub/x.hcb");
    assert_eq!(fs.entry_name("/elsewhere/y.hcb"), "/elsewhere/y.hcb");
}

#[test]
fn metadata_and_failures_map_to_engine_values() {
    assert_eq!(file_kind(true, false), RfvpFileKind::File);
    assert_eq!(file_kind(false, true), RfvpFileKind::Directory);
    assert_eq!(file_kind(false, false), RfvpFileKind::Other);
    assert_eq!(io_failure(true), RfvpError::NotFound);
    assert_eq!(io_failure(false), RfvpError::Io);
    let fs = HostFileSystem::new("/r");
    assert_eq!(fs.entry_info(7, false, true), RfvpFileInfo { len: 7, kind: RfvpFileKind::Directory });
    assert_eq!(RfvpFileInfo::file(3), RfvpFileInfo { len: 3, kind: RfvpFileKind::File });
}

#[test]
fn platform_starts_fresh_and_steps_at_least_a_millisecond() {
    let mut platform = HostPlatform::new("/games/a");
    assert_eq!(platform.filesystem.root, "/games/a");
    assert_eq!(platform.clock.ticks_us(), 0);
    platform.advance_for_step(0);
    assert_eq!(platform.clock.ticks_us(), 1_000);
    platform.advance_for_step(16);
    assert_eq!(platform.clock.ticks_us(), 17_000);
}

#[test]
fn clock_saturates() {
    let mut clock = HostClock::new();
    clock.advance_ms(u32::MAX);
    assert_eq!(clock.ticks_us(), u32::MAX as u64 * 1_000);
    clock.now_us = u64::MAX - 10;
    clock.advance_ms(1);
    assert_eq!(clock.ticks_us(), u64::MAX);
}

#[test]
fn audio_calls_queue_commands_in_order() {
    let mut audio = HostAudio::new();
    let id = AudioStreamId(4);
    let params = AudioParams { volume: 1.0f32.to_bits(), pan: 0, repeat: false };
    audio.load_encoded(id, EncodedAudioKind::Wav, &[1, 2]).unwrap();
    audio
        .create_stream(id, AudioStreamDesc { sample_format: AudioSampleFormat::I16, sample_rate: 44_100, channels: 2 })
        .unwrap();
    audio.submit_i16(id, &[5, -5]).unwrap();
    audio.submit_f32(id, &[0.25f32.to_bits()]).unwrap();
    audio.play(id, params, 10).unwrap();
    audio.stop(id, 20).unwrap();
    audio.pause(id).unwrap();
    audio.resume(id).unwrap();
    audio.set_params(id, params).unwrap();
    audio.set_master_volume(0.5f32.to_bits()).unwrap();
    audio.destroy_stream(id);
    audio.tick(1_000).unwrap();

    let mut out = vec![AudioCommand::Pause { id: AudioStreamId(99) }];
    audio.drain_commands(&mut out);
    assert_eq!(out.len(), 12);
    assert_eq!(out[0], AudioCommand::Pause { id: AudioStreamId(99) });
    assert_eq!(out[1], AudioCommand::LoadEncoded { id, kind: EncodedAudioKind::Wav, bytes: vec![1, 2] });
    assert_eq!(out[3], AudioCommand::SubmitI16 { id, samples: vec![5, -5] });
    assert_eq!(out[4], AudioCommand::SubmitF32 { id, samples: vec![0.25f32.to_bits()] });
    assert_eq!(out[5], AudioCommand::Play { id, params, fade_in_ms: 10 });
    assert_eq!(out[6], AudioCommand::Stop { id, fade_ms: 20 });
    assert_eq!(out[10], AudioCommand::MasterVolume { volume: 0.5f32.to_bits() });
    assert_eq!(out[11], AudioCommand::DestroyStream { id });

    let mut again = Vec::new();
    audio.drain_commands(&mut again);
    assert!(again.is_empty());
}
