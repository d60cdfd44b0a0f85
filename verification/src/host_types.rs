//! The engine-side vocabulary that the host ABI converts from and to:
//! textures, render commands, audio commands and input events.
//!
//! Values that the engine keeps as `f32` (vertex positions, texture
//! coordinates, vertex colours, audio volume and pan, float samples) are held
//! here as their IEEE-754 bit patterns; they are carried through unchanged.
use vstd::prelude::*;

verus! {

#[derive(Clone, Copy, Debug, PartialEq, Eq, Hash, Structural)]
pub struct TextureHandle(pub u32);

#[derive(Clone, Copy, Debug, PartialEq, Eq, Hash, Structural)]
pub struct TextureId(pub u32);

/// Pixel layouts of a host texture; `Other` stands for any layout the host ABI cannot carry.
#[derive(Clone, Copy, Debug, PartialEq, Eq, Structural)]
pub enum TextureFormat {
    Rgba8,
    LumaA8,
    Other,
}

#[derive(Clone, Copy, Debug, PartialEq, Eq, Structural)]
pub struct PortableTextureDesc {
    pub width: u16,
    pub height: u16,
    pub format: TextureFormat,
}

/// Pixel layouts the engine asks for; `Other` stands for any layout the host cannot store.
#[derive(Clone, Copy, Debug, PartialEq, Eq, Structural)]
pub enum PixelFormat {
    Rgba8,
    LumaA8,
    Other,
}

#[derive(Clone, Copy, Debug, PartialEq, Eq, Structural)]
pub struct TextureDesc {
    pub width: u32,
    pub height: u32,
    pub format: PixelFormat,
}

#[derive(Clone, Copy, Debug, PartialEq, Eq, Structural)]
pub struct TextureRect {
    pub x: u32,
    pub y: u32,
    pub width: u32,
    pub height: u32,
}

#[derive(Clone, Copy, Debug, Default, PartialEq, Eq, Structural)]
pub struct RectU16 {
    pub x: u16,
    pub y: u16,
    pub w: u16,
    pub h: u16,
}

#[derive(Clone, Copy, Debug, Default, PartialEq, Eq, Structural)]
pub struct RectI16 {
    pub x: i16,
    pub y: i16,
    pub w: i16,
    pub h: i16,
}

#[derive(Clone, Copy, Debug, PartialEq, Eq, Structural)]
pub struct Rgba8 {
    pub r: u8,
    pub g: u8,
    pub b: u8,
    pub a: u8,
}

/// A floating-point colour, each channel held as the bit pattern of its `f32`.
#[derive(Clone, Copy, Debug, PartialEq, Eq, Structural)]
pub struct ColorRgba {
    pub r: u32,
    pub g: u32,
    pub b: u32,
    pub a: u32,
}

/// A vertex; position and texture coordinate are held as `f32` bit patterns.
#[derive(Clone, Copy, Debug, PartialEq, Eq)]
pub struct Vertex2D {
    pub position: [u32; 2],
    pub tex_coord: [u32; 2],
    pub color: ColorRgba,
}

#[derive(Clone, Copy, Debug, PartialEq, Eq, Structural)]
pub enum CommandBlendMode {
    Normal,
    Add,
    Sub,
    Mul,
}

#[derive(Clone, Copy, Debug, PartialEq, Eq, Structural)]
pub enum BlendMode {
    Opaque,
    Alpha,
    Add,
    Multiply,
    Screen,
}

#[derive(Clone, Copy, Debug, PartialEq, Eq)]
pub struct DrawImageCmd {
    pub texture: TextureHandle,
    pub src: RectU16,
    pub dst: RectI16,
    pub color: Rgba8,
    pub blend: CommandBlendMode,
    pub effect_id: u16,
    pub clip: Option<RectI16>,
    pub vertices: [Vertex2D; 4],
}

#[derive(Clone, Copy, Debug, PartialEq, Eq, Structural)]
pub struct DrawGlyphCmd {
    pub texture: TextureHandle,
    pub src: RectU16,
    pub dst: RectI16,
    pub color: Rgba8,
    pub clip: Option<RectI16>,
}

#[derive(Clone, Copy, Debug, PartialEq, Eq)]
pub enum RenderCommand {
    SetClip(RectI16),
    ClearClip,
    DrawImage(DrawImageCmd),
    DrawGlyph(DrawGlyphCmd),
}

/// A scissor rectangle in screen pixels, as the engine gives it.
#[derive(Clone, Copy, Debug, PartialEq, Eq, Structural)]
pub struct ScissorRect {
    pub x: i32,
    pub y: i32,
    pub width: i32,
    pub height: i32,
}

#[derive(Clone, Copy, Debug, PartialEq, Eq, Structural)]
pub struct PrimId(pub u32);

#[derive(Clone, Copy, Debug, PartialEq, Eq, Structural)]
pub struct HitProxy {
    pub prim_id: PrimId,
    pub rect: RectI16,
    pub order: u32,
    pub enabled: bool,
    pub visible: bool,
}

#[derive(Clone, Debug, Default, PartialEq, Eq)]
pub struct HitProxyList {
    pub proxies: Vec<HitProxy>,
}

#[derive(Clone, Debug, Default, PartialEq, Eq)]
pub struct RenderFrame {
    pub commands: Vec<RenderCommand>,
    pub hit_proxies: HitProxyList,
}

impl RenderFrame {
    /// A frame with no commands and no hit proxies.
    pub fn empty() -> (f: Self)
        ensures
            f.commands@.len() == 0,
            f.hit_proxies.proxies@.len() == 0,
    {
        RenderFrame { commands: Vec::new(), hit_proxies: HitProxyList { proxies: Vec::new() } }
    }
}

/// Errors that the host side reports to the engine.
#[derive(Clone, Copy, Debug, PartialEq, Eq, Structural)]
pub enum RfvpError {
    InvalidArgument,
    NotFound,
    Unsupported,
    CapacityExceeded,
    Io,
}

/// What kind of entry a path names in the host's file system.
#[derive(Clone, Copy, Debug, PartialEq, Eq, Structural)]
pub enum RfvpFileKind {
    File,
    Directory,
    Other,
}

#[derive(Clone, Copy, Debug, PartialEq, Eq, Structural)]
pub struct RfvpFileInfo {
    pub len: u64,
    pub kind: RfvpFileKind,
}

impl RfvpFileInfo {
    /// The description of a file of `len` bytes.
    pub fn file(len: u64) -> (info: Self)
        ensures
            info.len == len,
            info.kind == RfvpFileKind::File,
    {
        RfvpFileInfo { len, kind: RfvpFileKind::File }
    }
}

#[derive(Clone, Copy, Debug, PartialEq, Eq, Structural)]
pub enum RfvpLogLevel {
    Error,
    Warn,
    Info,
    Debug,
    Trace,
}

/// Fatal conditions reported to the host; `code` gives their ABI number.
#[derive(Clone, Copy, Debug, PartialEq, Eq, Structural)]
pub enum FatalErrorCode {
    MissingDefaultFont,
    InvalidDefaultFont,
}

impl FatalErrorCode {
    pub fn code(self) -> (c: u32)
        ensures
            c == (match self {
                FatalErrorCode::MissingDefaultFont => 1u32,
                FatalErrorCode::InvalidDefaultFont => 2u32,
            }),
    {
        match self {
            FatalErrorCode::MissingDefaultFont => 1,
            FatalErrorCode::InvalidDefaultFont => 2,
        }
    }
}

/// Text encodings of game scripts.
#[derive(Clone, Copy, Debug, PartialEq, Eq, Structural)]
pub enum Nls {
    ShiftJIS,
    GBK,
    UTF8,
}

#[derive(Clone, Copy, Debug, PartialEq, Eq, Structural)]
pub struct AudioStreamId(pub u32);

impl AudioStreamId {
    /// The stream of background-music slot `slot`.
    pub fn bgm(slot: u32) -> (id: Self)
        ensures
            id.0 == slot,
    {
        AudioStreamId(slot)
    }
}

#[derive(Clone, Copy, Debug, PartialEq, Eq, Structural)]
pub enum EncodedAudioKind {
    Unknown,
    Wav,
    Ogg,
    Mp3,
    Flac,
}

#[derive(Clone, Copy, Debug, PartialEq, Eq, Structural)]
pub enum AudioSampleFormat {
    I16,
    F32,
}

#[derive(Clone, Copy, Debug, PartialEq, Eq, Structural)]
pub struct AudioStreamDesc {
    pub sample_format: AudioSampleFormat,
    pub sample_rate: u32,
    pub channels: u16,
}

/// Playback parameters; volume and pan are `f32` bit patterns.
#[derive(Clone, Copy, Debug, PartialEq, Eq, Structural)]
pub struct AudioParams {
    pub volume: u32,
    pub pan: u32,
    pub repeat: bool,
}

/// A command the engine sends to the host's audio device.
#[derive(Clone, Debug, PartialEq, Eq)]
pub enum AudioCommand {
    LoadEncoded { id: AudioStreamId, kind: EncodedAudioKind, bytes: Vec<u8> },
    CreateStream { id: AudioStreamId, desc: AudioStreamDesc },
    SubmitI16 { id: AudioStreamId, samples: Vec<i16> },
    /// Float samples, each held as the bit pattern of its `f32`.
    SubmitF32 { id: AudioStreamId, samples: Vec<u32> },
    Play { id: AudioStreamId, params: AudioParams, fade_in_ms: u32 },
    Stop { id: AudioStreamId, fade_ms: u32 },
    Pause { id: AudioStreamId },
    Resume { id: AudioStreamId },
    SetParams { id: AudioStreamId, params: AudioParams },
    DestroyStream { id: AudioStreamId },
    /// Master volume as the bit pattern of its `f32`.
    MasterVolume { volume: u32 },
}

#[derive(Clone, Copy, Debug, PartialEq, Eq, Structural)]
pub enum PointerButton {
    Left,
    Right,
    Middle,
}

#[derive(Clone, Copy, Debug, PartialEq, Eq, Structural)]
pub enum KeyCode {
    Escape,
    Return,
    Space,
    Backspace,
    Tab,
    Left,
    Right,
    Up,
    Down,
    PageUp,
    PageDown,
    Home,
    End,
    Insert,
    Delete,
    Shift,
    Control,
    Alt,
    Character(char),
    Unknown(u32),
}

/// Keyboard modifiers: the ABI's shift, control, alt and super flags.
#[derive(Clone, Copy, Debug, PartialEq, Eq, Structural)]
pub struct InputModifiers {
    pub bits: u32,
}

impl InputModifiers {
    pub fn empty() -> (m: Self)
        ensures
            m.bits == 0,
    {
        InputModifiers { bits: 0 }
    }

    /// Keeps the four modifier flags of `bits` and drops any other bit.
    pub fn from_bits(bits: u32) -> (m: Self)
        ensures
            m.bits == bits & 0xf,
    {
        InputModifiers { bits: bits & 0xf }
    }
}

/// An input event as the engine receives it.
#[derive(Clone, Copy, Debug, PartialEq, Eq, Structural)]
pub enum RfvpEvent {
    KeyDown { key: KeyCode, repeat: bool, modifiers: InputModifiers },
    KeyUp { key: KeyCode, modifiers: InputModifiers },
    TextInput { ch: char },
    PointerMove { x: i32, y: i32, in_screen: bool },
    PointerDown { button: PointerButton, x: i32, y: i32 },
    PointerUp { button: PointerButton, x: i32, y: i32 },
    Wheel { delta_x: i32, delta_y: i32 },
    TouchDown { id: u64, x: i32, y: i32 },
    TouchMove { id: u64, x: i32, y: i32 },
    TouchUp { id: u64, x: i32, y: i32 },
    FocusLost,
    FocusGained,
    Quit,
}

} // verus!
