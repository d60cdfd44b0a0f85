//! Conversion of engine audio commands into the records that the host polls.
use crate::abi::{
    FLOAT_ONE_BITS, RFVP_AUDIO_CREATE_STREAM, RFVP_AUDIO_DESTROY_STREAM, RFVP_AUDIO_ENCODED_FLAC,
    RFVP_AUDIO_ENCODED_MP3, RFVP_AUDIO_ENCODED_OGG, RFVP_AUDIO_ENCODED_UNKNOWN,
    RFVP_AUDIO_ENCODED_WAV, RFVP_AUDIO_LOAD_ENCODED, RFVP_AUDIO_MASTER_VOLUME, RFVP_AUDIO_PAUSE,
    RFVP_AUDIO_PLAY, RFVP_AUDIO_RESUME, RFVP_AUDIO_SAMPLE_F32, RFVP_AUDIO_SAMPLE_I16,
    RFVP_AUDIO_SET_PARAMS, RFVP_AUDIO_STOP, RFVP_AUDIO_SUBMIT_F32, RFVP_AUDIO_SUBMIT_I16,
};
use crate::host_types::{
    AudioCommand, AudioParams, AudioSampleFormat, AudioStreamDesc, AudioStreamId, EncodedAudioKind,
    RfvpError,
};
use vstd::prelude::*;

verus! {

pub open spec fn encoded_audio_kind_spec(kind: EncodedAudioKind) -> u32 {
    match kind {
        EncodedAudioKind::Unknown => RFVP_AUDIO_ENCODED_UNKNOWN,
        EncodedAudioKind::Wav => RFVP_AUDIO_ENCODED_WAV,
        EncodedAudioKind::Ogg => RFVP_AUDIO_ENCODED_OGG,
        EncodedAudioKind::Mp3 => RFVP_AUDIO_ENCODED_MP3,
        EncodedAudioKind::Flac => RFVP_AUDIO_ENCODED_FLAC,
    }
}

/// Each encoded-audio kind is sent as the ABI code of the same name, and no
/// two kinds share a code.
pub proof fn lemma_encoded_audio_codes(kind: EncodedAudioKind, other: EncodedAudioKind)
    ensures
        kind is Unknown ==> encoded_audio_kind_spec(kind) == RFVP_AUDIO_ENCODED_UNKNOWN,
        kind is Wav ==> encoded_audio_kind_spec(kind) == RFVP_AUDIO_ENCODED_WAV,
        kind is Ogg ==> encoded_audio_kind_spec(kind) == RFVP_AUDIO_ENCODED_OGG,
        kind is Mp3 ==> encoded_audio_kind_spec(kind) == RFVP_AUDIO_ENCODED_MP3,
        kind is Flac ==> encoded_audio_kind_spec(kind) == RFVP_AUDIO_ENCODED_FLAC,
        encoded_audio_kind_spec(kind) == encoded_audio_kind_spec(other) ==> kind == other,
{
}

pub fn encoded_audio_kind(kind: EncodedAudioKind) -> (r: u32)
    ensures
        r == encoded_audio_kind_spec(kind),
        kind is Unknown ==> r == RFVP_AUDIO_ENCODED_UNKNOWN,
        kind is Wav ==> r == RFVP_AUDIO_ENCODED_WAV,
        kind is Ogg ==> r == RFVP_AUDIO_ENCODED_OGG,
        kind is Mp3 ==> r == RFVP_AUDIO_ENCODED_MP3,
        kind is Flac ==> r == RFVP_AUDIO_ENCODED_FLAC,
{
    match kind {
        EncodedAudioKind::Unknown => RFVP_AUDIO_ENCODED_UNKNOWN,
        EncodedAudioKind::Wav => RFVP_AUDIO_ENCODED_WAV,
        EncodedAudioKind::Ogg => RFVP_AUDIO_ENCODED_OGG,
        EncodedAudioKind::Mp3 => RFVP_AUDIO_ENCODED_MP3,
        EncodedAudioKind::Flac => RFVP_AUDIO_ENCODED_FLAC,
    }
}

pub open spec fn audio_sample_format_spec(format: AudioSampleFormat) -> u32 {
    match format {
        AudioSampleFormat::I16 => RFVP_AUDIO_SAMPLE_I16,
        AudioSampleFormat::F32 => RFVP_AUDIO_SAMPLE_F32,
    }
}

/// 16-bit and float streams are announced with the sample-format codes of
/// the same names, which differ.
pub proof fn lemma_sample_format_codes(format: AudioSampleFormat, other: AudioSampleFormat)
    ensures
        format is I16 ==> audio_sample_format_spec(format) == RFVP_AUDIO_SAMPLE_I16,
        format is F32 ==> audio_sample_format_spec(format) == RFVP_AUDIO_SAMPLE_F32,
        audio_sample_format_spec(format) == audio_sample_format_spec(other) ==> format == other,
{
}

pub fn audio_sample_format(format: AudioSampleFormat) -> (r: u32)
    ensures
        r == audio_sample_format_spec(format),
        format is I16 ==> r == RFVP_AUDIO_SAMPLE_I16,
        format is F32 ==> r == RFVP_AUDIO_SAMPLE_F32,
{
    match format {
        AudioSampleFormat::I16 => RFVP_AUDIO_SAMPLE_I16,
        AudioSampleFormat::F32 => RFVP_AUDIO_SAMPLE_F32,
    }
}

/// An audio command in the ABI's terms; volume and pan are `float` bit
/// patterns, and the payload bytes travel beside it.
#[derive(Clone, Copy, Debug, PartialEq, Eq, Structural)]
pub struct AudioCommandRecord {
    pub kind: u32,
    pub stream_id: u32,
    pub sample_format: u32,
    pub encoded_kind: u32,
    pub sample_rate: u32,
    pub channels: u32,
    pub repeat: u32,
    pub fade_ms: u32,
    pub volume: u32,
    pub pan: u32,
    pub sample_count: usize,
    pub payload_size: usize,
}

/// An audio command ready to be polled, with the payload its record describes.
#[derive(Debug)]
pub struct PendingAudioCommand {
    pub command: AudioCommandRecord,
    pub payload: Vec<u8>,
}

/// The record every audio command starts from: unit volume, centre pan, no payload.
pub open spec fn empty_audio_command_spec(kind: u32, stream_id: u32) -> AudioCommandRecord {
    AudioCommandRecord {
        kind,
        stream_id,
        sample_format: 0,
        encoded_kind: 0,
        sample_rate: 0,
        channels: 0,
        repeat: 0,
        fade_ms: 0,
        volume: FLOAT_ONE_BITS,
        pan: 0,
        sample_count: 0,
        payload_size: 0,
    }
}

pub fn empty_audio_command(kind: u32, stream_id: u32) -> (r: AudioCommandRecord)
    ensures
        r == empty_audio_command_spec(kind, stream_id),
{
    AudioCommandRecord {
        kind,
        stream_id,
        sample_format: 0,
        encoded_kind: 0,
        sample_rate: 0,
        channels: 0,
        repeat: 0,
        fade_ms: 0,
        volume: FLOAT_ONE_BITS,
        pan: 0,
        sample_count: 0,
        payload_size: 0,
    }
}

/// The little-endian bytes of a 16-bit value.
pub open spec fn le_bytes_u16(x: u16) -> Seq<u8> {
    seq![(x % 256) as u8, (x / 256) as u8]
}

/// The little-endian bytes of a 32-bit value.
pub open spec fn le_bytes_u32(x: u32) -> Seq<u8> {
    seq![(x % 256) as u8, ((x / 256) % 256) as u8, ((x / 65536) % 256) as u8, (x / 16777216) as u8]
}

/// Signed 16-bit samples as little-endian two's-complement bytes, in order.
pub open spec fn i16_payload(samples: Seq<i16>) -> Seq<u8>
    decreases samples.len(),
{
    if samples.len() == 0 {
        Seq::empty()
    } else {
        i16_payload(samples.drop_last()) + le_bytes_u16(samples.last() as u16)
    }
}

/// 32-bit sample patterns as little-endian bytes, in order.
pub open spec fn u32_payload(samples: Seq<u32>) -> Seq<u8>
    decreases samples.len(),
{
    if samples.len() == 0 {
        Seq::empty()
    } else {
        u32_payload(samples.drop_last()) + le_bytes_u32(samples.last())
    }
}

/// The payload that travels with an audio command.
pub open spec fn audio_payload(command: AudioCommand) -> Seq<u8> {
    match command {
        AudioCommand::LoadEncoded { bytes, .. } => bytes@,
        AudioCommand::SubmitI16 { samples, .. } => i16_payload(samples@),
        AudioCommand::SubmitF32 { samples, .. } => u32_payload(samples@),
        _ => Seq::empty(),
    }
}

/// The record of an audio command, without its payload size.
pub open spec fn audio_record_fields(command: AudioCommand) -> AudioCommandRecord {
    let e = empty_audio_command_spec(0, 0);
    match command {
        AudioCommand::LoadEncoded { id, kind, .. } => AudioCommandRecord {
            kind: RFVP_AUDIO_LOAD_ENCODED,
            stream_id: id.0,
            encoded_kind: encoded_audio_kind_spec(kind),
            ..e
        },
        AudioCommand::CreateStream { id, desc } => AudioCommandRecord {
            kind: RFVP_AUDIO_CREATE_STREAM,
            stream_id: id.0,
            sample_format: audio_sample_format_spec(desc.sample_format),
            sample_rate: desc.sample_rate,
            channels: desc.channels as u32,
            ..e
        },
        AudioCommand::SubmitI16 { id, samples } => AudioCommandRecord {
            kind: RFVP_AUDIO_SUBMIT_I16,
            stream_id: id.0,
            sample_format: RFVP_AUDIO_SAMPLE_I16,
            sample_count: samples@.len() as usize,
            ..e
        },
        AudioCommand::SubmitF32 { id, samples } => AudioCommandRecord {
            kind: RFVP_AUDIO_SUBMIT_F32,
            stream_id: id.0,
            sample_format: RFVP_AUDIO_SAMPLE_F32,
            sample_count: samples@.len() as usize,
            ..e
        },
        AudioCommand::Play { id, params, fade_in_ms } => AudioCommandRecord {
            kind: RFVP_AUDIO_PLAY,
            stream_id: id.0,
            volume: params.volume,
            pan: params.pan,
            repeat: if params.repeat {
                1
            } else {
                0
            },
            fade_ms: fade_in_ms,
            ..e
        },
        AudioCommand::Stop { id, fade_ms } => AudioCommandRecord {
            kind: RFVP_AUDIO_STOP,
            stream_id: id.0,
            fade_ms,
            ..e
        },
        AudioCommand::Pause { id } => AudioCommandRecord {
            kind: RFVP_AUDIO_PAUSE,
            stream_id: id.0,
            ..e
        },
        AudioCommand::Resume { id } => AudioCommandRecord {
            kind: RFVP_AUDIO_RESUME,
            stream_id: id.0,
            ..e
        },
        AudioCommand::SetParams { id, params } => AudioCommandRecord {
            kind: RFVP_AUDIO_SET_PARAMS,
            stream_id: id.0,
            volume: params.volume,
            pan: params.pan,
            repeat: if params.repeat {
                1
            } else {
                0
            },
            ..e
        },
        AudioCommand::DestroyStream { id } => AudioCommandRecord {
            kind: RFVP_AUDIO_DESTROY_STREAM,
            stream_id: id.0,
            ..e
        },
        AudioCommand::MasterVolume { volume } => AudioCommandRecord {
            kind: RFVP_AUDIO_MASTER_VOLUME,
            volume,
            ..e
        },
    }
}

/// Whether a record describes an audio command: its kind is the ABI code
/// named after the command's variant, and it carries the command's stream,
/// parameters and sample count.
pub open spec fn record_describes(command: AudioCommand, rec: AudioCommandRecord) -> bool {
    match command {
        AudioCommand::LoadEncoded { id, kind, .. } => rec.kind == RFVP_AUDIO_LOAD_ENCODED
            && rec.stream_id == id.0 && (kind is Wav ==> rec.encoded_kind == RFVP_AUDIO_ENCODED_WAV)
            && (kind is Ogg ==> rec.encoded_kind == RFVP_AUDIO_ENCODED_OGG) && (kind is Mp3
            ==> rec.encoded_kind == RFVP_AUDIO_ENCODED_MP3) && (kind is Flac ==> rec.encoded_kind
            == RFVP_AUDIO_ENCODED_FLAC) && (kind is Unknown ==> rec.encoded_kind
            == RFVP_AUDIO_ENCODED_UNKNOWN),
        AudioCommand::CreateStream { id, desc } => rec.kind == RFVP_AUDIO_CREATE_STREAM
            && rec.stream_id == id.0 && rec.sample_rate == desc.sample_rate && rec.channels
            == desc.channels && (desc.sample_format is I16 ==> rec.sample_format
            == RFVP_AUDIO_SAMPLE_I16) && (desc.sample_format is F32 ==> rec.sample_format
            == RFVP_AUDIO_SAMPLE_F32),
        AudioCommand::SubmitI16 { id, samples } => rec.kind == RFVP_AUDIO_SUBMIT_I16
            && rec.stream_id == id.0 && rec.sample_format == RFVP_AUDIO_SAMPLE_I16
            && rec.sample_count == samples@.len() as usize,
        AudioCommand::SubmitF32 { id, samples } => rec.kind == RFVP_AUDIO_SUBMIT_F32
            && rec.stream_id == id.0 && rec.sample_format == RFVP_AUDIO_SAMPLE_F32
            && rec.sample_count == samples@.len() as usize,
        AudioCommand::Play { id, params, fade_in_ms } => rec.kind == RFVP_AUDIO_PLAY
            && rec.stream_id == id.0 && rec.volume == params.volume && rec.pan == params.pan && (
        rec.repeat != 0) == params.repeat && rec.fade_ms == fade_in_ms,
        AudioCommand::Stop { id, fade_ms } => rec.kind == RFVP_AUDIO_STOP && rec.stream_id == id.0
            && rec.fade_ms == fade_ms,
        AudioCommand::Pause { id } => rec.kind == RFVP_AUDIO_PAUSE && rec.stream_id == id.0,
        AudioCommand::Resume { id } => rec.kind == RFVP_AUDIO_RESUME && rec.stream_id == id.0,
        AudioCommand::SetParams { id, params } => rec.kind == RFVP_AUDIO_SET_PARAMS
            && rec.stream_id == id.0 && rec.volume == params.volume && rec.pan == params.pan && (
        rec.repeat != 0) == params.repeat,
        AudioCommand::DestroyStream { id } => rec.kind == RFVP_AUDIO_DESTROY_STREAM
            && rec.stream_id == id.0,
        AudioCommand::MasterVolume { volume } => rec.kind == RFVP_AUDIO_MASTER_VOLUME
            && rec.volume == volume,
    }
}

/// The record of every audio command has the ABI kind named after the
/// command's own variant (a pause is polled as a pause, a resume as a resume,
/// and so on) and carries the command's stream id and parameters; commands of
/// different variants are polled with different kinds.
pub proof fn lemma_audio_record_describes(command: AudioCommand, other: AudioCommand)
    ensures
        record_describes(command, audio_record_fields(command)),
        command is Pause ==> audio_record_fields(command).kind == RFVP_AUDIO_PAUSE,
        command is Resume ==> audio_record_fields(command).kind == RFVP_AUDIO_RESUME,
        audio_record_fields(command).kind == audio_record_fields(other).kind
            ==> same_variant(command, other),
{
}

/// Whether two audio commands are of the same variant.
pub open spec fn same_variant(a: AudioCommand, b: AudioCommand) -> bool {
    match (a, b) {
        (AudioCommand::LoadEncoded { .. }, AudioCommand::LoadEncoded { .. }) => true,
        (AudioCommand::CreateStream { .. }, AudioCommand::CreateStream { .. }) => true,
        (AudioCommand::SubmitI16 { .. }, AudioCommand::SubmitI16 { .. }) => true,
        (AudioCommand::SubmitF32 { .. }, AudioCommand::SubmitF32 { .. }) => true,
        (AudioCommand::Play { .. }, AudioCommand::Play { .. }) => true,
        (AudioCommand::Stop { .. }, AudioCommand::Stop { .. }) => true,
        (AudioCommand::Pause { .. }, AudioCommand::Pause { .. }) => true,
        (AudioCommand::Resume { .. }, AudioCommand::Resume { .. }) => true,
        (AudioCommand::SetParams { .. }, AudioCommand::SetParams { .. }) => true,
        (AudioCommand::DestroyStream { .. }, AudioCommand::DestroyStream { .. }) => true,
        (AudioCommand::MasterVolume { .. }, AudioCommand::MasterVolume { .. }) => true,
        _ => false,
    }
}

fn push_i16_samples(payload: &mut Vec<u8>, samples: &Vec<i16>)
    ensures
        final(payload)@ == old(payload)@ + i16_payload(samples@),
{
    let ghost start = payload@;
    let mut i: usize = 0;
    while i < samples.len()
        invariant
            i <= samples@.len(),
            payload@ == start + i16_payload(samples@.subrange(0, i as int)),
        decreases samples@.len() - i,
    {
        let v = samples[i] as u16;
        payload.push((v % 256) as u8);
        payload.push((v / 256) as u8);
        proof {
            let prefix = samples@.subrange(0, i as int + 1);
            assert(prefix.drop_last() =~= samples@.subrange(0, i as int));
            assert(prefix.last() == samples@[i as int]);
        }
        assert(payload@ =~= start + i16_payload(samples@.subrange(0, i as int + 1)));
        i = i + 1;
    }
    assert(samples@.subrange(0, i as int) =~= samples@);
}

fn push_u32_samples(payload: &mut Vec<u8>, samples: &Vec<u32>)
    ensures
        final(payload)@ == old(payload)@ + u32_payload(samples@),
{
    let ghost start = payload@;
    let mut i: usize = 0;
    while i < samples.len()
        invariant
            i <= samples@.len(),
            payload@ == start + u32_payload(samples@.subrange(0, i as int)),
        decreases samples@.len() - i,
    {
        let v = samples[i];
        payload.push((v % 256) as u8);
        payload.push(((v / 256) % 256) as u8);
        payload.push(((v / 65536) % 256) as u8);
        payload.push((v / 16777216) as u8);
        proof {
            let prefix = samples@.subrange(0, i as int + 1);
            assert(prefix.drop_last() =~= samples@.subrange(0, i as int));
            assert(prefix.last() == samples@[i as int]);
        }
        assert(payload@ =~= start + u32_payload(samples@.subrange(0, i as int + 1)));
        i = i + 1;
    }
    assert(samples@.subrange(0, i as int) =~= samples@);
}

/// Turns an engine audio command into the record the host polls and its payload.
pub fn pending_audio_command(command: AudioCommand) -> (p: PendingAudioCommand)
    ensures
        p.payload@ == audio_payload(command),
        p.command == (AudioCommandRecord {
            payload_size: audio_payload(command).len() as usize,
            ..audio_record_fields(command)
        }),
        record_describes(command, p.command),
        p.command.payload_size == p.payload@.len(),
{
    let ghost given = command;
    let mut payload: Vec<u8> = Vec::new();
    let mut output = empty_audio_command(0, 0);
    match command {
        AudioCommand::LoadEncoded { id, kind, bytes } => {
            output.kind = RFVP_AUDIO_LOAD_ENCODED;
            output.stream_id = id.0;
            output.encoded_kind = encoded_audio_kind(kind);
            payload = bytes;
        },
        AudioCommand::CreateStream { id, desc } => {
            output.kind = RFVP_AUDIO_CREATE_STREAM;
            output.stream_id = id.0;
            output.sample_format = audio_sample_format(desc.sample_format);
            output.sample_rate = desc.sample_rate;
            output.channels = desc.channels as u32;
        },
        AudioCommand::SubmitI16 { id, samples } => {
            output.kind = RFVP_AUDIO_SUBMIT_I16;
            output.stream_id = id.0;
            output.sample_format = RFVP_AUDIO_SAMPLE_I16;
            output.sample_count = samples.len();
            push_i16_samples(&mut payload, &samples);
        },
        AudioCommand::SubmitF32 { id, samples } => {
            output.kind = RFVP_AUDIO_SUBMIT_F32;
            output.stream_id = id.0;
            output.sample_format = RFVP_AUDIO_SAMPLE_F32;
            output.sample_count = samples.len();
            push_u32_samples(&mut payload, &samples);
        },
        AudioCommand::Play { id, params, fade_in_ms } => {
            output.kind = RFVP_AUDIO_PLAY;
            output.stream_id = id.0;
            output.volume = params.volume;
            output.pan = params.pan;
            output.repeat = if params.repeat {
                1
            } else {
                0
            };
            output.fade_ms = fade_in_ms;
        },
        AudioCommand::Stop { id, fade_ms } => {
            output.kind = RFVP_AUDIO_STOP;
            output.stream_id = id.0;
            output.fade_ms = fade_ms;
        },
        AudioCommand::Pause { id } => {
            output.kind = RFVP_AUDIO_PAUSE;
            output.stream_id = id.0;
        },
        AudioCommand::Resume { id } => {
            output.kind = RFVP_AUDIO_RESUME;
            output.stream_id = id.0;
        },
        AudioCommand::SetParams { id, params } => {
            output.kind = RFVP_AUDIO_SET_PARAMS;
            output.stream_id = id.0;
            output.volume = params.volume;
            output.pan = params.pan;
            output.repeat = if params.repeat {
                1
            } else {
                0
            };
        },
        AudioCommand::DestroyStream { id } => {
            output.kind = RFVP_AUDIO_DESTROY_STREAM;
            output.stream_id = id.0;
        },
        AudioCommand::MasterVolume { volume } => {
            output.kind = RFVP_AUDIO_MASTER_VOLUME;
            output.volume = volume;
        },
    }
    assert(payload@ =~= audio_payload(given));
    output.payload_size = payload.len();
    PendingAudioCommand { command: output, payload }
}

/// The host's audio device as the engine sees it: every call is queued, in
/// order, as an audio command for the host to poll.
pub struct HostAudio {
    commands: Vec<AudioCommand>,
}

impl HostAudio {
    /// The commands queued since the last drain, oldest first.
    pub closed spec fn queued(&self) -> Seq<AudioCommand> {
        self.commands@
    }

    pub fn new() -> (a: Self)
        ensures
            a.queued().len() == 0,
    {
        HostAudio { commands: Vec::new() }
    }

    /// Moves every queued command, in order, to the end of `out`.
    pub fn drain_commands(&mut self, out: &mut Vec<AudioCommand>)
        ensures
            final(out)@ == old(out)@ + old(self).queued(),
            final(self).queued().len() == 0,
    {
        out.append(&mut self.commands);
    }

    /// Queues the loading of an encoded clip into stream `id`.
    pub fn load_encoded(&mut self, id: AudioStreamId, kind: EncodedAudioKind, bytes: &[u8]) -> (r:
        Result<(), RfvpError>)
        ensures
            r is Ok,
            final(self).queued().len() == old(self).queued().len() + 1,
            final(self).queued().drop_last() == old(self).queued(),
            final(self).queued().last() matches AudioCommand::LoadEncoded { id: i, kind: k, bytes: b }
                && i == id && k == kind && b@ == bytes@,
    {
        self.commands.push(AudioCommand::LoadEncoded { id, kind, bytes: vstd::slice::slice_to_vec(bytes) });
        Ok(())
    }

    /// Queues the creation of a sample stream.
    pub fn create_stream(&mut self, id: AudioStreamId, desc: AudioStreamDesc) -> (r: Result<
        (),
        RfvpError,
    >)
        ensures
            r is Ok,
            final(self).queued() == old(self).queued().push(AudioCommand::CreateStream { id, desc }),
    {
        self.commands.push(AudioCommand::CreateStream { id, desc });
        Ok(())
    }

    /// Queues 16-bit samples for stream `id`.
    pub fn submit_i16(&mut self, id: AudioStreamId, samples: &[i16]) -> (r: Result<(), RfvpError>)
        ensures
            r is Ok,
            final(self).queued().len() == old(self).queued().len() + 1,
            final(self).queued().drop_last() == old(self).queued(),
            final(self).queued().last() matches AudioCommand::SubmitI16 { id: i, samples: s } && i
                == id && s@ == samples@,
    {
        self.commands.push(AudioCommand::SubmitI16 { id, samples: vstd::slice::slice_to_vec(samples) });
        Ok(())
    }

    /// Queues float samples, each given as the bit pattern of its `f32`, for stream `id`.
    pub fn submit_f32(&mut self, id: AudioStreamId, samples: &[u32]) -> (r: Result<(), RfvpError>)
        ensures
            r is Ok,
            final(self).queued().len() == old(self).queued().len() + 1,
            final(self).queued().drop_last() == old(self).queued(),
            final(self).queued().last() matches AudioCommand::SubmitF32 { id: i, samples: s } && i
                == id && s@ == samples@,
    {
        self.commands.push(AudioCommand::SubmitF32 { id, samples: vstd::slice::slice_to_vec(samples) });
        Ok(())
    }

    pub fn play(&mut self, id: AudioStreamId, params: AudioParams, fade_in_ms: u32) -> (r: Result<
        (),
        RfvpError,
    >)
        ensures
            r is Ok,
            final(self).queued() == old(self).queued().push(
                AudioCommand::Play { id, params, fade_in_ms },
            ),
    {
        self.commands.push(AudioCommand::Play { id, params, fade_in_ms });
        Ok(())
    }

    pub fn stop(&mut self, id: AudioStreamId, fade_ms: u32) -> (r: Result<(), RfvpError>)
        ensures
            r is Ok,
            final(self).queued() == old(self).queued().push(AudioCommand::Stop { id, fade_ms }),
    {
        self.commands.push(AudioCommand::Stop { id, fade_ms });
        Ok(())
    }

    pub fn pause(&mut self, id: AudioStreamId) -> (r: Result<(), RfvpError>)
        ensures
            r is Ok,
            final(self).queued() == old(self).queued().push(AudioCommand::Pause { id }),
    {
        self.commands.push(AudioCommand::Pause { id });
        Ok(())
    }

    pub fn resume(&mut self, id: AudioStreamId) -> (r: Result<(), RfvpError>)
        ensures
            r is Ok,
            final(self).queued() == old(self).queued().push(AudioCommand::Resume { id }),
    {
        self.commands.push(AudioCommand::Resume { id });
        Ok(())
    }

    pub fn set_params(&mut self, id: AudioStreamId, params: AudioParams) -> (r: Result<
        (),
        RfvpError,
    >)
        ensures
            r is Ok,
            final(self).queued() == old(self).queued().push(AudioCommand::SetParams { id, params }),
    {
        self.commands.push(AudioCommand::SetParams { id, params });
        Ok(())
    }

    /// Queues a master-volume change; `volume` is the bit pattern of an `f32`.
    pub fn set_master_volume(&mut self, volume: u32) -> (r: Result<(), RfvpError>)
        ensures
            r is Ok,
            final(self).queued() == old(self).queued().push(AudioCommand::MasterVolume { volume }),
    {
        self.commands.push(AudioCommand::MasterVolume { volume });
        Ok(())
    }

    pub fn destroy_stream(&mut self, id: AudioStreamId)
        ensures
            final(self).queued() == old(self).queued().push(AudioCommand::DestroyStream { id }),
    {
        self.commands.push(AudioCommand::DestroyStream { id });
    }

    /// Time passing changes nothing: the host's device keeps its own time.
    pub fn tick(&mut self, _delta_us: u64) -> (r: Result<(), RfvpError>)
        ensures
            r is Ok,
            final(self).queued() == old(self).queued(),
    {
        Ok(())
    }
}

} // verus!
