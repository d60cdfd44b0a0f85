//! The v1 host ABI vocabulary: codes, flags and the plain records that cross
//! the boundary.
//!
//! Records that carry a pointer or a float in the C layout are held here by
//! their plain fields; the pixel, payload and mesh bytes travel beside them,
//! and colours and coordinates that the C layout stores as `float` are held as
//! their IEEE-754 bit patterns or as the integers they are computed from.
use vstd::prelude::*;

verus! {

pub const RFVP_API_ABI_VERSION: u32 = 1;
pub const RFVP_API_ABI_MAGIC: u64 = 0x4950_4131_5056_4652;
pub const RFVP_INVALID_HANDLE: u64 = 0;

pub const RFVP_STATUS_OK: i32 = 0;
pub const RFVP_STATUS_NO_FRAME: i32 = 1;
pub const RFVP_STATUS_NO_COMMAND: i32 = 2;
pub const RFVP_STATUS_INVALID_ARGUMENT: i32 = -1;
pub const RFVP_STATUS_INVALID_HANDLE: i32 = -2;
pub const RFVP_STATUS_INVALID_STATE: i32 = -3;
pub const RFVP_STATUS_NOT_FOUND: i32 = -4;
pub const RFVP_STATUS_INVALID_DATA: i32 = -5;
pub const RFVP_STATUS_UNSUPPORTED: i32 = -6;
pub const RFVP_STATUS_OUT_OF_MEMORY: i32 = -7;
pub const RFVP_STATUS_BUSY: i32 = -8;
pub const RFVP_STATUS_IO: i32 = -9;
pub const RFVP_STATUS_ENGINE: i32 = -10;

pub const RFVP_NLS_SHIFT_JIS: u32 = 1;
pub const RFVP_NLS_GBK: u32 = 2;
pub const RFVP_NLS_UTF8: u32 = 3;

pub const RFVP_INPUT_KEY: u32 = 1;
pub const RFVP_INPUT_TEXT: u32 = 2;
pub const RFVP_INPUT_POINTER_MOVE: u32 = 3;
pub const RFVP_INPUT_POINTER_BUTTON: u32 = 4;
pub const RFVP_INPUT_WHEEL: u32 = 5;
pub const RFVP_INPUT_TOUCH: u32 = 6;
pub const RFVP_INPUT_FOCUS: u32 = 7;
pub const RFVP_INPUT_QUIT: u32 = 8;

pub const RFVP_INPUT_PHASE_DOWN: u32 = 0;
pub const RFVP_INPUT_PHASE_UP: u32 = 1;
pub const RFVP_INPUT_PHASE_REPEAT: u32 = 2;
pub const RFVP_INPUT_PHASE_MOVE: u32 = 3;

pub const RFVP_POINTER_LEFT: u32 = 1;
pub const RFVP_POINTER_RIGHT: u32 = 2;
pub const RFVP_POINTER_MIDDLE: u32 = 4;

pub const RFVP_KEY_BACKSPACE: u32 = 8;
pub const RFVP_KEY_TAB: u32 = 9;
pub const RFVP_KEY_RETURN: u32 = 13;
pub const RFVP_KEY_ESCAPE: u32 = 27;
pub const RFVP_KEY_SPACE: u32 = 32;
pub const RFVP_KEY_PAGE_UP: u32 = 33;
pub const RFVP_KEY_PAGE_DOWN: u32 = 34;
pub const RFVP_KEY_END: u32 = 35;
pub const RFVP_KEY_HOME: u32 = 36;
pub const RFVP_KEY_LEFT: u32 = 37;
pub const RFVP_KEY_UP: u32 = 38;
pub const RFVP_KEY_RIGHT: u32 = 39;
pub const RFVP_KEY_DOWN: u32 = 40;
pub const RFVP_KEY_INSERT: u32 = 45;
pub const RFVP_KEY_DELETE: u32 = 46;
pub const RFVP_KEY_SHIFT: u32 = 16;
pub const RFVP_KEY_CONTROL: u32 = 17;
pub const RFVP_KEY_ALT: u32 = 18;

pub const RFVP_MODIFIER_SHIFT: u32 = 1;
pub const RFVP_MODIFIER_CONTROL: u32 = 2;
pub const RFVP_MODIFIER_ALT: u32 = 4;
pub const RFVP_MODIFIER_SUPER: u32 = 8;

pub const RFVP_TEXTURE_FORMAT_RGBA8: u32 = 1;
pub const RFVP_TEXTURE_FORMAT_LUMA_A8: u32 = 2;

pub const RFVP_TEXTURE_CREATE: u32 = 1;
pub const RFVP_TEXTURE_UPDATE: u32 = 2;
pub const RFVP_TEXTURE_DESTROY: u32 = 3;

pub const RFVP_BLEND_NORMAL: u32 = 0;
pub const RFVP_BLEND_ADD: u32 = 1;
pub const RFVP_BLEND_REVERSE_SUBTRACT: u32 = 2;
pub const RFVP_BLEND_MULTIPLY: u32 = 3;
pub const RFVP_BLEND_SCREEN: u32 = 4;

pub const RFVP_TEXTURE_FILTER_NEAREST: u32 = 0;
pub const RFVP_TEXTURE_FILTER_LINEAR: u32 = 1;

pub const RFVP_DRAW_IMAGE: u32 = 1;
pub const RFVP_DRAW_GLYPH: u32 = 2;
pub const RFVP_DRAW_SOLID: u32 = 3;

pub const RFVP_MESH_TRIANGLE_LIST: u32 = 1;
pub const RFVP_MESH_TRIANGLE_STRIP: u32 = 2;

pub const RFVP_AUDIO_LOAD_ENCODED: u32 = 1;
pub const RFVP_AUDIO_CREATE_STREAM: u32 = 2;
pub const RFVP_AUDIO_SUBMIT_I16: u32 = 3;
pub const RFVP_AUDIO_SUBMIT_F32: u32 = 4;
pub const RFVP_AUDIO_PLAY: u32 = 5;
pub const RFVP_AUDIO_STOP: u32 = 6;
pub const RFVP_AUDIO_PAUSE: u32 = 7;
pub const RFVP_AUDIO_RESUME: u32 = 8;
pub const RFVP_AUDIO_SET_PARAMS: u32 = 9;
pub const RFVP_AUDIO_DESTROY_STREAM: u32 = 10;
pub const RFVP_AUDIO_MASTER_VOLUME: u32 = 11;

pub const RFVP_AUDIO_SAMPLE_I16: u32 = 1;
pub const RFVP_AUDIO_SAMPLE_F32: u32 = 2;

pub const RFVP_AUDIO_ENCODED_UNKNOWN: u32 = 0;
pub const RFVP_AUDIO_ENCODED_WAV: u32 = 1;
pub const RFVP_AUDIO_ENCODED_OGG: u32 = 2;
pub const RFVP_AUDIO_ENCODED_MP3: u32 = 3;
pub const RFVP_AUDIO_ENCODED_FLAC: u32 = 4;

pub const RFVP_DRAW_FLAG_HAS_CLIP: u32 = 1;
pub const RFVP_DRAW_FLAG_HAS_MESH: u32 = 2;
pub const RFVP_DRAW_FLAG_HAS_EFFECT: u32 = 4;
pub const RFVP_DRAW_FLAG_HAS_SRC_RECT: u32 = 8;

pub const RFVP_HIT_PROXY_ENABLED: u32 = 1;
pub const RFVP_HIT_PROXY_VISIBLE: u32 = 2;

pub const RFVP_CAPABILITY_EVENTS: u64 = 1;
pub const RFVP_CAPABILITY_TEXTURES: u64 = 2;
pub const RFVP_CAPABILITY_DRAW_IMAGE: u64 = 4;
pub const RFVP_CAPABILITY_DRAW_GLYPH: u64 = 8;
pub const RFVP_CAPABILITY_DRAW_MESH: u64 = 16;
pub const RFVP_CAPABILITY_DRAW_EFFECTS: u64 = 32;
pub const RFVP_CAPABILITY_HIT_PROXIES: u64 = 64;
pub const RFVP_CAPABILITY_TEXT_REPLACEMENTS: u64 = 128;
pub const RFVP_CAPABILITY_TEXT_TRANSLATION: u64 = 256;
pub const RFVP_CAPABILITY_NATIVE_SURFACE: u64 = 512;
pub const RFVP_CAPABILITY_AUDIO_COMMANDS: u64 = 1024;
pub const RFVP_CAPABILITY_FONT_OVERRIDE: u64 = 2048;

pub const RFVP_TEXTURE_ID_WHITE: u32 = 0xffff_ffff;

/// Byte size of the C layout of `RfvpInputEventV1`.
pub const INPUT_EVENT_V1_SIZE: usize = 40;

/// Bit pattern of the `float` 1.0.
pub const FLOAT_ONE_BITS: u32 = 0x3f80_0000;

/// Capabilities of a live runtime.
pub const RUNTIME_CAPABILITIES: u64 = RFVP_CAPABILITY_TEXTURES | RFVP_CAPABILITY_DRAW_IMAGE
    | RFVP_CAPABILITY_DRAW_GLYPH | RFVP_CAPABILITY_HIT_PROXIES | RFVP_CAPABILITY_AUDIO_COMMANDS;

/// Configuration of a resource set; the save-root text travels beside it.
#[derive(Clone, Copy, Debug, PartialEq, Eq)]
pub struct RfvpResourcesConfigV1 {
    pub struct_size: u32,
    pub flags: u32,
    pub nls: u32,
    pub reserved0: u32,
    pub save_root_len: usize,
    pub reserved: [u64; 4],
}

#[derive(Clone, Copy, Debug, PartialEq, Eq)]
pub struct RfvpRuntimeConfigV1 {
    pub struct_size: u32,
    pub flags: u32,
    pub resources: u64,
    pub requested_width: u32,
    pub requested_height: u32,
    pub reserved: [u64; 4],
}

#[derive(Clone, Copy, Debug, PartialEq, Eq)]
pub struct RfvpInputEventV1 {
    pub struct_size: u32,
    pub kind: u32,
    pub code: u32,
    pub phase: u32,
    pub x: i32,
    pub y: i32,
    pub value: i32,
    pub modifiers: u32,
    pub id: u64,
}

#[derive(Clone, Copy, Debug, PartialEq, Eq, Structural)]
pub struct RfvpRectU16V1 {
    pub x: u16,
    pub y: u16,
    pub width: u16,
    pub height: u16,
}

#[derive(Clone, Copy, Debug, PartialEq, Eq, Structural)]
pub struct RfvpRectI32V1 {
    pub x: i32,
    pub y: i32,
    pub width: i32,
    pub height: i32,
}

/// A texture command of a frame; its pixel bytes travel beside it, at the
/// same position in the frame's pixel list.
#[derive(Clone, Copy, Debug, PartialEq, Eq)]
pub struct RfvpTextureCommandV1 {
    pub kind: u32,
    pub texture_id: u32,
    pub format: u32,
    pub width: u32,
    pub height: u32,
    pub mip_count: u32,
    pub row_bytes: u32,
    pub rect: RfvpRectI32V1,
    pub generation: u64,
    pub pixels_size: usize,
}

#[derive(Clone, Copy, Debug, PartialEq, Eq)]
pub struct RfvpHitProxyV1 {
    pub prim_id: u32,
    pub flags: u32,
    pub rect: RfvpRectI32V1,
    pub order: u32,
    pub reserved0: u32,
}

#[derive(Clone, Copy, Debug, PartialEq, Eq)]
pub struct RfvpEventHeaderV1 {
    pub abi_version: u32,
    pub kind: u32,
    pub sequence: u64,
    pub payload_size: u32,
    pub aux: u32,
}

#[derive(Clone, Copy, Debug, PartialEq, Eq)]
pub struct RfvpTextTranslationEventV1 {
    pub struct_size: u32,
    pub encoding: u32,
    pub serial: u64,
    pub generation: u64,
    pub slot: u32,
    pub source_offset: u32,
    pub source_len: u32,
    pub ruby_offset: u32,
    pub ruby_len: u32,
    pub reserved0: u32,
}

} // verus!
