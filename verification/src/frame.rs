//! Conversion of a recorded engine frame into the records that the host ABI
//! hands out: draw commands, texture commands and hit proxies.
use crate::abi::{
    RfvpHitProxyV1, RfvpRectI32V1, RfvpRectU16V1, RfvpTextureCommandV1, RFVP_BLEND_ADD,
    RFVP_HIT_PROXY_ENABLED, RFVP_HIT_PROXY_VISIBLE, RFVP_DRAW_FLAG_HAS_CLIP,
    RFVP_DRAW_FLAG_HAS_SRC_RECT,
    RFVP_BLEND_MULTIPLY, RFVP_BLEND_NORMAL, RFVP_BLEND_REVERSE_SUBTRACT, RFVP_DRAW_GLYPH,
    RFVP_DRAW_IMAGE, RFVP_TEXTURE_CREATE, RFVP_TEXTURE_DESTROY, RFVP_TEXTURE_FORMAT_LUMA_A8,
    RFVP_TEXTURE_FORMAT_RGBA8, RFVP_TEXTURE_UPDATE,
};
use crate::host_types::{
    BlendMode, CommandBlendMode, DrawGlyphCmd, DrawImageCmd, HitProxy, RectI16, RectU16,
    RenderCommand, Rgba8, TextureFormat, Vertex2D,
};
use crate::recording::{ExternalFrame, RecordedTextureCommand, TextureCommandView};
use vstd::prelude::*;

verus! {

pub open spec fn rect_i32_spec(rect: RectI16) -> RfvpRectI32V1 {
    RfvpRectI32V1 { x: rect.x as i32, y: rect.y as i32, width: rect.w as i32, height: rect.h as i32 }
}

pub fn rect_i32(rect: RectI16) -> (r: RfvpRectI32V1)
    ensures
        r == rect_i32_spec(rect),
{
    RfvpRectI32V1 { x: rect.x as i32, y: rect.y as i32, width: rect.w as i32, height: rect.h as i32 }
}

pub fn rect_u16(rect: RectU16) -> (r: RfvpRectU16V1)
    ensures
        r == (RfvpRectU16V1 { x: rect.x, y: rect.y, width: rect.w, height: rect.h }),
{
    RfvpRectU16V1 { x: rect.x, y: rect.y, width: rect.w, height: rect.h }
}

/// The ABI blend code of a command blend mode.
pub open spec fn blend_spec(mode: CommandBlendMode) -> u32 {
    match mode {
        CommandBlendMode::Normal => RFVP_BLEND_NORMAL,
        CommandBlendMode::Add => RFVP_BLEND_ADD,
        CommandBlendMode::Sub => RFVP_BLEND_REVERSE_SUBTRACT,
        CommandBlendMode::Mul => RFVP_BLEND_MULTIPLY,
    }
}

pub fn blend(mode: CommandBlendMode) -> (r: u32)
    ensures
        r == blend_spec(mode),
        mode is Normal ==> r == RFVP_BLEND_NORMAL,
        mode is Add ==> r == RFVP_BLEND_ADD,
        mode is Sub ==> r == RFVP_BLEND_REVERSE_SUBTRACT,
        mode is Mul ==> r == RFVP_BLEND_MULTIPLY,
{
    match mode {
        CommandBlendMode::Normal => RFVP_BLEND_NORMAL,
        CommandBlendMode::Add => RFVP_BLEND_ADD,
        CommandBlendMode::Sub => RFVP_BLEND_REVERSE_SUBTRACT,
        CommandBlendMode::Mul => RFVP_BLEND_MULTIPLY,
    }
}

/// Each command blend mode is drawn with the ABI blend code of the same name,
/// and no two modes share a code.
pub proof fn lemma_blend_codes(mode: CommandBlendMode, other: CommandBlendMode)
    ensures
        mode is Normal ==> blend_spec(mode) == RFVP_BLEND_NORMAL,
        mode is Add ==> blend_spec(mode) == RFVP_BLEND_ADD,
        mode is Sub ==> blend_spec(mode) == RFVP_BLEND_REVERSE_SUBTRACT,
        mode is Mul ==> blend_spec(mode) == RFVP_BLEND_MULTIPLY,
        blend_spec(mode) == blend_spec(other) ==> mode == other,
{
}

/// An image draw record carries the ABI blend code named after the command's
/// own blend mode, whatever clip is in force.
pub proof fn lemma_draw_image_blend(command: DrawImageCmd, active: Option<RectI16>)
    ensures
        command.blend is Normal ==> draw_image_spec(command, active).blend == RFVP_BLEND_NORMAL,
        command.blend is Add ==> draw_image_spec(command, active).blend == RFVP_BLEND_ADD,
        command.blend is Sub ==> draw_image_spec(command, active).blend
            == RFVP_BLEND_REVERSE_SUBTRACT,
        command.blend is Mul ==> draw_image_spec(command, active).blend == RFVP_BLEND_MULTIPLY,
{
    lemma_blend_codes(command.blend, command.blend);
}

/// The command blend mode that an engine blend mode is drawn with.
pub fn command_blend(blend: BlendMode) -> (r: CommandBlendMode)
    ensures
        r == (match blend {
            BlendMode::Opaque | BlendMode::Alpha => CommandBlendMode::Normal,
            BlendMode::Add | BlendMode::Screen => CommandBlendMode::Add,
            BlendMode::Multiply => CommandBlendMode::Mul,
        }),
{
    match blend {
        BlendMode::Opaque | BlendMode::Alpha => CommandBlendMode::Normal,
        BlendMode::Add => CommandBlendMode::Add,
        BlendMode::Multiply => CommandBlendMode::Mul,
        BlendMode::Screen => CommandBlendMode::Add,
    }
}

/// The ABI format code of a texture format, if the ABI can carry it.
pub open spec fn texture_format_spec(format: TextureFormat) -> Option<u32> {
    match format {
        TextureFormat::Rgba8 => Some(RFVP_TEXTURE_FORMAT_RGBA8),
        TextureFormat::LumaA8 => Some(RFVP_TEXTURE_FORMAT_LUMA_A8),
        TextureFormat::Other => None,
    }
}

pub fn texture_format(format: TextureFormat) -> (r: Option<u32>)
    ensures
        r == texture_format_spec(format),
        format is Rgba8 ==> r == Some(RFVP_TEXTURE_FORMAT_RGBA8),
        format is LumaA8 ==> r == Some(RFVP_TEXTURE_FORMAT_LUMA_A8),
        format is Other ==> r is None,
{
    match format {
        TextureFormat::Rgba8 => Some(RFVP_TEXTURE_FORMAT_RGBA8),
        TextureFormat::LumaA8 => Some(RFVP_TEXTURE_FORMAT_LUMA_A8),
        TextureFormat::Other => None,
    }
}

/// The ABI carries RGBA8 textures under the RGBA8 code at four bytes a
/// pixel and luma-alpha textures under the luma-alpha code at two bytes a
/// pixel, and no other format; formats it carries get distinct codes.
pub proof fn lemma_texture_formats(format: TextureFormat, other: TextureFormat)
    ensures
        format is Rgba8 ==> texture_format_spec(format) == Some(RFVP_TEXTURE_FORMAT_RGBA8)
            && pixel_bytes_spec(format) == 4,
        format is LumaA8 ==> texture_format_spec(format) == Some(RFVP_TEXTURE_FORMAT_LUMA_A8)
            && pixel_bytes_spec(format) == 2,
        format is Other ==> texture_format_spec(format) is None && pixel_bytes_spec(format) == 0,
        texture_format_spec(format) is Some && texture_format_spec(format) == texture_format_spec(
            other,
        ) ==> format == other,
{
}

/// Bytes per pixel of a texture format; zero for a format the ABI cannot carry.
pub open spec fn pixel_bytes_spec(format: TextureFormat) -> u32 {
    match format {
        TextureFormat::Rgba8 => 4,
        TextureFormat::LumaA8 => 2,
        TextureFormat::Other => 0,
    }
}

pub fn texture_pixel_bytes(format: TextureFormat) -> (r: u32)
    ensures
        r == pixel_bytes_spec(format),
        format is Rgba8 ==> r == 4,
        format is LumaA8 ==> r == 2,
        format is Other ==> r == 0,
{
    match format {
        TextureFormat::Rgba8 => 4,
        TextureFormat::LumaA8 => 2,
        TextureFormat::Other => 0,
    }
}

/// `i16::saturating_add`: the sum, clamped to the range of `i16`.
pub open spec fn saturating_add_i16_spec(a: i16, b: i16) -> i16 {
    let s = a as int + b as int;
    if s > i16::MAX {
        i16::MAX
    } else if s < i16::MIN {
        i16::MIN
    } else {
        s as i16
    }
}

pub fn saturating_add_i16(a: i16, b: i16) -> (r: i16)
    ensures
        r == saturating_add_i16_spec(a, b),
{
    let s = a as i32 + b as i32;
    if s > i16::MAX as i32 {
        i16::MAX
    } else if s < i16::MIN as i32 {
        i16::MIN
    } else {
        s as i16
    }
}

/// One corner of a glyph quad: its screen position and its texture
/// coordinates, each 0 or 1. A glyph's corners carry the draw's colour.
#[derive(Clone, Copy, Debug, PartialEq, Eq, Structural)]
pub struct GlyphCorner {
    pub x: i16,
    pub y: i16,
    pub u: u8,
    pub v: u8,
}

/// The four corners of a draw: an image carries its own vertices; a glyph is
/// the axis-aligned quad between its edges, in the order bottom-left,
/// top-left, bottom-right, top-right.
#[derive(Clone, Copy, Debug, PartialEq, Eq)]
pub enum DrawVertices {
    Image([Vertex2D; 4]),
    Glyph(GlyphCorner, GlyphCorner, GlyphCorner, GlyphCorner),
}

/// The corners of the glyph quad between `left`/`top` and `right`/`bottom`.
pub open spec fn glyph_quad(left: i16, top: i16, right: i16, bottom: i16) -> DrawVertices {
    DrawVertices::Glyph(
        GlyphCorner { x: left, y: bottom, u: 0, v: 1 },
        GlyphCorner { x: left, y: top, u: 0, v: 0 },
        GlyphCorner { x: right, y: bottom, u: 1, v: 1 },
        GlyphCorner { x: right, y: top, u: 1, v: 0 },
    )
}

/// A draw command of a frame, in the ABI's terms; the colour is the 8-bit
/// colour that the ABI record carries as floats.
#[derive(Clone, Copy, Debug, PartialEq, Eq)]
pub struct DrawCommandRecord {
    pub kind: u32,
    pub flags: u32,
    pub texture_id: u32,
    pub blend: u32,
    pub effect_id: u32,
    pub src_rect: RfvpRectU16V1,
    pub dst_rect: RfvpRectI32V1,
    pub clip_rect: RfvpRectI32V1,
    pub color: Rgba8,
    pub vertices: DrawVertices,
}

/// The flags of a draw: a source rectangle when the source is non-empty, a
/// clip when one applies.
pub open spec fn draw_flags(src: RectU16, clip: Option<RectI16>) -> u32 {
    let has_src = src.w > 0 && src.h > 0;
    if has_src && clip is Some {
        9
    } else if has_src {
        8
    } else if clip is Some {
        1
    } else {
        0
    }
}

/// The clip a draw is cut to: its own, else the one in force.
pub open spec fn effective_clip(own: Option<RectI16>, active: Option<RectI16>) -> Option<RectI16> {
    match own {
        Some(c) => Some(c),
        None => active,
    }
}

pub open spec fn clip_rect_spec(clip: Option<RectI16>) -> RfvpRectI32V1 {
    match clip {
        Some(c) => rect_i32_spec(c),
        None => RfvpRectI32V1 { x: 0, y: 0, width: 0, height: 0 },
    }
}

pub open spec fn draw_image_spec(command: DrawImageCmd, active: Option<RectI16>) -> DrawCommandRecord {
    let clip = effective_clip(command.clip, active);
    DrawCommandRecord {
        kind: RFVP_DRAW_IMAGE,
        flags: draw_flags(command.src, clip),
        texture_id: command.texture.0,
        blend: blend_spec(command.blend),
        effect_id: command.effect_id as u32,
        src_rect: RfvpRectU16V1 {
            x: command.src.x,
            y: command.src.y,
            width: command.src.w,
            height: command.src.h,
        },
        dst_rect: rect_i32_spec(command.dst),
        clip_rect: clip_rect_spec(clip),
        color: command.color,
        vertices: DrawVertices::Image(command.vertices),
    }
}

pub open spec fn draw_glyph_spec(command: DrawGlyphCmd, active: Option<RectI16>) -> DrawCommandRecord {
    let clip = effective_clip(command.clip, active);
    DrawCommandRecord {
        kind: RFVP_DRAW_GLYPH,
        flags: draw_flags(command.src, clip),
        texture_id: command.texture.0,
        blend: RFVP_BLEND_NORMAL,
        effect_id: 0,
        src_rect: RfvpRectU16V1 {
            x: command.src.x,
            y: command.src.y,
            width: command.src.w,
            height: command.src.h,
        },
        dst_rect: rect_i32_spec(command.dst),
        clip_rect: clip_rect_spec(clip),
        color: command.color,
        vertices: glyph_quad(
            command.dst.x,
            command.dst.y,
            saturating_add_i16_spec(command.dst.x, command.dst.w),
            saturating_add_i16_spec(command.dst.y, command.dst.h),
        ),
    }
}

/// A draw's flags hold the source-rectangle bit exactly when its source is
/// non-empty, the clip bit exactly when a clip applies, and no other bit.
pub proof fn lemma_draw_flags_bits(src: RectU16, clip: Option<RectI16>)
    ensures
        (draw_flags(src, clip) & RFVP_DRAW_FLAG_HAS_SRC_RECT != 0) <==> (src.w > 0 && src.h > 0),
        (draw_flags(src, clip) & RFVP_DRAW_FLAG_HAS_CLIP != 0) <==> clip is Some,
        draw_flags(src, clip) & !(RFVP_DRAW_FLAG_HAS_SRC_RECT | RFVP_DRAW_FLAG_HAS_CLIP) == 0,
{
    lemma_draw_flag_values();
}

proof fn lemma_draw_flag_values()
    ensures
        (0u32 & 8u32) == 0 && (0u32 & 1u32) == 0 && (0u32 & !(8u32 | 1u32)) == 0,
        (1u32 & 8u32) == 0 && (1u32 & 1u32) != 0 && (1u32 & !(8u32 | 1u32)) == 0,
        (8u32 & 8u32) != 0 && (8u32 & 1u32) == 0 && (8u32 & !(8u32 | 1u32)) == 0,
        (9u32 & 8u32) != 0 && (9u32 & 1u32) != 0 && (9u32 & !(8u32 | 1u32)) == 0,
{
    assert((0u32 & 8u32) == 0 && (0u32 & 1u32) == 0 && (0u32 & !(8u32 | 1u32)) == 0) by (bit_vector);
    assert((1u32 & 8u32) == 0 && (1u32 & 1u32) != 0 && (1u32 & !(8u32 | 1u32)) == 0) by (bit_vector);
    assert((8u32 & 8u32) != 0 && (8u32 & 1u32) == 0 && (8u32 & !(8u32 | 1u32)) == 0) by (bit_vector);
    assert((9u32 & 8u32) != 0 && (9u32 & 1u32) != 0 && (9u32 & !(8u32 | 1u32)) == 0) by (bit_vector);
}

fn flags_for(src: RectU16, clip: Option<RectI16>) -> (flags: u32)
    ensures
        flags == draw_flags(src, clip),
        (flags & RFVP_DRAW_FLAG_HAS_SRC_RECT != 0) <==> (src.w > 0 && src.h > 0),
        (flags & RFVP_DRAW_FLAG_HAS_CLIP != 0) <==> clip is Some,
{
    proof {
        lemma_draw_flag_values();
    }
    let mut flags: u32 = 0;
    if src.w > 0 && src.h > 0 {
        flags = flags | 8;
    }
    if clip.is_some() {
        flags = flags | 1;
    }
    assert(0u32 | 8u32 == 8u32) by (bit_vector);
    assert(8u32 | 1u32 == 9u32) by (bit_vector);
    assert(0u32 | 1u32 == 1u32) by (bit_vector);
    flags
}

fn clip_rect(clip: Option<RectI16>) -> (r: RfvpRectI32V1)
    ensures
        r == clip_rect_spec(clip),
{
    match clip {
        Some(c) => rect_i32(c),
        None => RfvpRectI32V1 { x: 0, y: 0, width: 0, height: 0 },
    }
}

/// The draw record of an image command under the clip in force.
pub fn draw_image(command: &DrawImageCmd, active: Option<RectI16>) -> (r: DrawCommandRecord)
    ensures
        r == draw_image_spec(*command, active),
{
    let clip = match command.clip {
        Some(c) => Some(c),
        None => active,
    };
    DrawCommandRecord {
        kind: RFVP_DRAW_IMAGE,
        flags: flags_for(command.src, clip),
        texture_id: command.texture.0,
        blend: blend(command.blend),
        effect_id: command.effect_id as u32,
        src_rect: rect_u16(command.src),
        dst_rect: rect_i32(command.dst),
        clip_rect: clip_rect(clip),
        color: command.color,
        vertices: DrawVertices::Image(command.vertices),
    }
}

/// The draw record of a glyph command under the clip in force.
pub fn draw_glyph(command: &DrawGlyphCmd, active: Option<RectI16>) -> (r: DrawCommandRecord)
    ensures
        r == draw_glyph_spec(*command, active),
{
    let clip = match command.clip {
        Some(c) => Some(c),
        None => active,
    };
    DrawCommandRecord {
        kind: RFVP_DRAW_GLYPH,
        flags: flags_for(command.src, clip),
        texture_id: command.texture.0,
        blend: RFVP_BLEND_NORMAL,
        effect_id: 0,
        src_rect: rect_u16(command.src),
        dst_rect: rect_i32(command.dst),
        clip_rect: clip_rect(clip),
        color: command.color,
        vertices: {
            let left = command.dst.x;
            let top = command.dst.y;
            let right = saturating_add_i16(command.dst.x, command.dst.w);
            let bottom = saturating_add_i16(command.dst.y, command.dst.h);
            DrawVertices::Glyph(
                GlyphCorner { x: left, y: bottom, u: 0, v: 1 },
                GlyphCorner { x: left, y: top, u: 0, v: 0 },
                GlyphCorner { x: right, y: bottom, u: 1, v: 1 },
                GlyphCorner { x: right, y: top, u: 1, v: 0 },
            )
        },
    }
}

/// The clip in force after a run of render commands.
pub open spec fn clip_after(cmds: Seq<RenderCommand>) -> Option<RectI16>
    decreases cmds.len(),
{
    if cmds.len() == 0 {
        None
    } else {
        match cmds.last() {
            RenderCommand::SetClip(rect) => Some(rect),
            RenderCommand::ClearClip => None,
            _ => clip_after(cmds.drop_last()),
        }
    }
}

/// The draw records of a run of render commands: one per draw, each cut to
/// the clip in force when it was issued.
pub open spec fn draw_records(cmds: Seq<RenderCommand>) -> Seq<DrawCommandRecord>
    decreases cmds.len(),
{
    if cmds.len() == 0 {
        Seq::empty()
    } else {
        let before = draw_records(cmds.drop_last());
        let active = clip_after(cmds.drop_last());
        match cmds.last() {
            RenderCommand::DrawImage(c) => before.push(draw_image_spec(c, active)),
            RenderCommand::DrawGlyph(c) => before.push(draw_glyph_spec(c, active)),
            _ => before,
        }
    }
}

/// An image draw appended to any run of render commands adds one draw record,
/// and that record's blend code is the one named after the draw's blend mode.
pub proof fn lemma_draw_records_image_blend(cmds: Seq<RenderCommand>, command: DrawImageCmd)
    ensures
        draw_records(cmds.push(RenderCommand::DrawImage(command))).len() == draw_records(cmds).len()
            + 1,
        command.blend is Normal ==> draw_records(
            cmds.push(RenderCommand::DrawImage(command)),
        ).last().blend == RFVP_BLEND_NORMAL,
        command.blend is Add ==> draw_records(
            cmds.push(RenderCommand::DrawImage(command)),
        ).last().blend == RFVP_BLEND_ADD,
        command.blend is Sub ==> draw_records(
            cmds.push(RenderCommand::DrawImage(command)),
        ).last().blend == RFVP_BLEND_REVERSE_SUBTRACT,
        command.blend is Mul ==> draw_records(
            cmds.push(RenderCommand::DrawImage(command)),
        ).last().blend == RFVP_BLEND_MULTIPLY,
{
    let all = cmds.push(RenderCommand::DrawImage(command));
    assert(all.drop_last() =~= cmds);
    lemma_draw_image_blend(command, clip_after(cmds));
}

/// The ABI texture record of a texture operation; creations in a format the
/// ABI cannot carry have none.
pub open spec fn texture_record(cmd: TextureCommandView) -> Option<RfvpTextureCommandV1> {
    match cmd {
        TextureCommandView::Create(c) => match texture_format_spec(c.desc.format) {
            Some(format) => Some(
                RfvpTextureCommandV1 {
                    kind: RFVP_TEXTURE_CREATE,
                    texture_id: c.handle.0,
                    format,
                    width: c.desc.width as u32,
                    height: c.desc.height as u32,
                    mip_count: 1,
                    row_bytes: (c.desc.width as u32 * pixel_bytes_spec(c.desc.format)) as u32,
                    rect: RfvpRectI32V1 {
                        x: 0,
                        y: 0,
                        width: c.desc.width as i32,
                        height: c.desc.height as i32,
                    },
                    generation: c.generation,
                    pixels_size: c.pixels.len() as usize,
                },
            ),
            None => None,
        },
        TextureCommandView::Update(u) => Some(
            RfvpTextureCommandV1 {
                kind: RFVP_TEXTURE_UPDATE,
                texture_id: u.handle.0,
                format: match texture_format_spec(u.format) {
                    Some(f) => f,
                    None => 0,
                },
                width: u.rect.width,
                height: u.rect.height,
                mip_count: 1,
                row_bytes: (u.rect.width * pixel_bytes_spec(u.format)) as u32,
                rect: RfvpRectI32V1 {
                    x: u.rect.x as i32,
                    y: u.rect.y as i32,
                    width: u.rect.width as i32,
                    height: u.rect.height as i32,
                },
                generation: u.generation,
                pixels_size: u.pixels.len() as usize,
            },
        ),
        TextureCommandView::Destroy(handle) => Some(
            RfvpTextureCommandV1 {
                kind: RFVP_TEXTURE_DESTROY,
                texture_id: handle.0,
                format: 0,
                width: 0,
                height: 0,
                mip_count: 0,
                row_bytes: 0,
                rect: RfvpRectI32V1 { x: 0, y: 0, width: 0, height: 0 },
                generation: 0,
                pixels_size: 0,
            },
        ),
    }
}

/// The pixel bytes that travel with a texture operation.
pub open spec fn texture_payload(cmd: TextureCommandView) -> Seq<u8> {
    match cmd {
        TextureCommandView::Create(c) => c.pixels,
        TextureCommandView::Update(u) => u.pixels,
        TextureCommandView::Destroy(_) => Seq::empty(),
    }
}

/// The texture records of a run of texture operations, in order.
pub open spec fn texture_records(cmds: Seq<TextureCommandView>) -> Seq<RfvpTextureCommandV1>
    decreases cmds.len(),
{
    if cmds.len() == 0 {
        Seq::empty()
    } else {
        let before = texture_records(cmds.drop_last());
        match texture_record(cmds.last()) {
            Some(r) => before.push(r),
            None => before,
        }
    }
}

/// The pixel bytes of a run of texture operations, one entry per texture record.
pub open spec fn texture_payloads(cmds: Seq<TextureCommandView>) -> Seq<Seq<u8>>
    decreases cmds.len(),
{
    if cmds.len() == 0 {
        Seq::empty()
    } else {
        let before = texture_payloads(cmds.drop_last());
        match texture_record(cmds.last()) {
            Some(_) => before.push(texture_payload(cmds.last())),
            None => before,
        }
    }
}

/// Whether every update's row size fits the ABI's 32-bit row field.
pub open spec fn update_rows_fit(cmds: Seq<TextureCommandView>) -> bool {
    forall|i: int|
        0 <= i < cmds.len() ==> (#[trigger] cmds[i] matches TextureCommandView::Update(u)
            ==> u.rect.width * pixel_bytes_spec(u.format) <= u32::MAX)
}

/// Checks `update_rows_fit` on a run of texture operations.
pub fn texture_rows_fit(cmds: &[RecordedTextureCommand]) -> (b: bool)
    ensures
        b == update_rows_fit(crate::recording::command_views(cmds@)),
{
    let ghost views = crate::recording::command_views(cmds@);
    let mut i: usize = 0;
    while i < cmds.len()
        invariant
            i <= cmds@.len(),
            views == crate::recording::command_views(cmds@),
            forall|j: int|
                0 <= j < i ==> (#[trigger] views[j] matches TextureCommandView::Update(u)
                    ==> u.rect.width * pixel_bytes_spec(u.format) <= u32::MAX),
        decreases cmds@.len() - i,
    {
        assert(views[i as int] == cmds@[i as int]@);
        match &cmds[i] {
            RecordedTextureCommand::Update(u) => {
                let pb = texture_pixel_bytes(u.format) as u64;
                let width = u.rect.width as u64;
                assert(width * pb <= 0xffff_ffff * 4) by (nonlinear_arith)
                    requires
                        width <= 0xffff_ffff,
                        pb <= 4,
                ;
                let row = width * pb;
                if row > 0xffff_ffff {
                    return false;
                }
            },
            _ => {},
        }
        i = i + 1;
    }
    true
}

/// The flags of a hit proxy.
pub open spec fn hit_proxy_flags(proxy: HitProxy) -> u32 {
    if proxy.enabled && proxy.visible {
        3
    } else if proxy.enabled {
        1
    } else if proxy.visible {
        2
    } else {
        0
    }
}

pub open spec fn hit_proxy_record(proxy: HitProxy) -> RfvpHitProxyV1 {
    RfvpHitProxyV1 {
        prim_id: proxy.prim_id.0,
        flags: hit_proxy_flags(proxy),
        rect: rect_i32_spec(proxy.rect),
        order: proxy.order,
        reserved0: 0,
    }
}

/// The record of a hit proxy names its primitive, rectangle and order, and
/// its flags hold the enabled bit exactly when the proxy is enabled and the
/// visible bit exactly when it is visible, each bit independent of the other.
pub proof fn lemma_hit_proxy_record(proxy: HitProxy)
    ensures
        hit_proxy_record(proxy).prim_id == proxy.prim_id.0,
        hit_proxy_record(proxy).order == proxy.order,
        hit_proxy_record(proxy).rect == rect_i32_spec(proxy.rect),
        (hit_proxy_record(proxy).flags & RFVP_HIT_PROXY_ENABLED != 0) <==> proxy.enabled,
        (hit_proxy_record(proxy).flags & RFVP_HIT_PROXY_VISIBLE != 0) <==> proxy.visible,
        hit_proxy_record(proxy).flags & !(RFVP_HIT_PROXY_ENABLED | RFVP_HIT_PROXY_VISIBLE) == 0,
{
    lemma_flag_bits();
}

proof fn lemma_flag_bits()
    ensures
        (0u32 & 1u32) == 0 && (0u32 & 2u32) == 0 && (0u32 & !(1u32 | 2u32)) == 0,
        (1u32 & 1u32) != 0 && (1u32 & 2u32) == 0 && (1u32 & !(1u32 | 2u32)) == 0,
        (2u32 & 1u32) == 0 && (2u32 & 2u32) != 0 && (2u32 & !(1u32 | 2u32)) == 0,
        (3u32 & 1u32) != 0 && (3u32 & 2u32) != 0 && (3u32 & !(1u32 | 2u32)) == 0,
{
    assert((0u32 & 1u32) == 0 && (0u32 & 2u32) == 0 && (0u32 & !(1u32 | 2u32)) == 0) by (bit_vector);
    assert((1u32 & 1u32) != 0 && (1u32 & 2u32) == 0 && (1u32 & !(1u32 | 2u32)) == 0) by (bit_vector);
    assert((2u32 & 1u32) == 0 && (2u32 & 2u32) != 0 && (2u32 & !(1u32 | 2u32)) == 0) by (bit_vector);
    assert((3u32 & 1u32) != 0 && (3u32 & 2u32) != 0 && (3u32 & !(1u32 | 2u32)) == 0) by (bit_vector);
}

fn hit_proxy(proxy: &HitProxy) -> (r: RfvpHitProxyV1)
    ensures
        r == hit_proxy_record(*proxy),
        r.prim_id == proxy.prim_id.0,
        r.order == proxy.order,
        (r.flags & RFVP_HIT_PROXY_ENABLED != 0) <==> proxy.enabled,
        (r.flags & RFVP_HIT_PROXY_VISIBLE != 0) <==> proxy.visible,
{
    proof {
        lemma_flag_bits();
    }
    let mut flags: u32 = 0;
    if proxy.enabled {
        flags = flags | 1;
    }
    if proxy.visible {
        flags = flags | 2;
    }
    assert(0u32 | 1u32 == 1u32) by (bit_vector);
    assert(1u32 | 2u32 == 3u32) by (bit_vector);
    assert(0u32 | 2u32 == 2u32) by (bit_vector);
    RfvpHitProxyV1 {
        prim_id: proxy.prim_id.0,
        flags,
        rect: rect_i32(proxy.rect),
        order: proxy.order,
        reserved0: 0,
    }
}

fn texture_command(cmd: &RecordedTextureCommand) -> (r: Option<(RfvpTextureCommandV1, Vec<u8>)>)
    requires
        cmd@ matches TextureCommandView::Update(u) ==> u.rect.width * pixel_bytes_spec(u.format)
            <= u32::MAX,
    ensures
        match texture_record(cmd@) {
            Some(rec) => r matches Some(p) && p.0 == rec && p.1@ == texture_payload(cmd@),
            None => r is None,
        },
{
    match cmd {
        RecordedTextureCommand::Create(texture) => {
            let format = match texture_format(texture.desc.format) {
                Some(f) => f,
                None => return None,
            };
            let pixels = vstd::slice::slice_to_vec(texture.pixels.as_slice());
            let pixel_bytes = texture_pixel_bytes(texture.desc.format);
            let width = texture.desc.width as u32;
            assert(width * pixel_bytes <= 0xffff * 4) by (nonlinear_arith)
                requires
                    width <= 0xffff,
                    pixel_bytes <= 4,
            ;
            let rec = RfvpTextureCommandV1 {
                kind: RFVP_TEXTURE_CREATE,
                texture_id: texture.handle.0,
                format,
                width: texture.desc.width as u32,
                height: texture.desc.height as u32,
                mip_count: 1,
                row_bytes: width * pixel_bytes,
                rect: RfvpRectI32V1 {
                    x: 0,
                    y: 0,
                    width: texture.desc.width as i32,
                    height: texture.desc.height as i32,
                },
                generation: texture.generation,
                pixels_size: pixels.len(),
            };
            Some((rec, pixels))
        },
        RecordedTextureCommand::Update(update) => {
            let pixels = vstd::slice::slice_to_vec(update.pixels.as_slice());
            let format = match texture_format(update.format) {
                Some(f) => f,
                None => 0,
            };
            let rec = RfvpTextureCommandV1 {
                kind: RFVP_TEXTURE_UPDATE,
                texture_id: update.handle.0,
                format,
                width: update.rect.width,
                height: update.rect.height,
                mip_count: 1,
                row_bytes: update.rect.width * texture_pixel_bytes(update.format),
                rect: RfvpRectI32V1 {
                    x: #[verifier::truncate] (update.rect.x as i32),
                    y: #[verifier::truncate] (update.rect.y as i32),
                    width: #[verifier::truncate] (update.rect.width as i32),
                    height: #[verifier::truncate] (update.rect.height as i32),
                },
                generation: update.generation,
                pixels_size: pixels.len(),
            };
            Some((rec, pixels))
        },
        RecordedTextureCommand::Destroy(destroy) => {
            let rec = RfvpTextureCommandV1 {
                kind: RFVP_TEXTURE_DESTROY,
                texture_id: destroy.handle.0,
                format: 0,
                width: 0,
                height: 0,
                mip_count: 0,
                row_bytes: 0,
                rect: RfvpRectI32V1 { x: 0, y: 0, width: 0, height: 0 },
                generation: 0,
                pixels_size: 0,
            };
            Some((rec, Vec::new()))
        },
    }
}

/// A frame as handed to the host: its size, the runtime it came from, and
/// the draw, texture and hit-proxy records, with the pixel bytes of each
/// texture record at the same position in `texture_pixels`.
pub struct HostFrame {
    pub width: u32,
    pub height: u32,
    pub runtime: u64,
    pub commands: Vec<DrawCommandRecord>,
    pub textures: Vec<RfvpTextureCommandV1>,
    pub hit_proxies: Vec<RfvpHitProxyV1>,
    pub texture_pixels: Vec<Vec<u8>>,
}

impl HostFrame {
    /// Whether this is the frame that `external`, at the given size and from
    /// runtime `runtime`, becomes for the host.
    pub open spec fn built_from(self, external: ExternalFrame, width: u32, height: u32, runtime: u64) -> bool {
        &&& self.width == width
        &&& self.height == height
        &&& self.runtime == runtime
        &&& self.textures@ == texture_records(crate::recording::command_views(external.texture_commands@))
        &&& self.texture_pixels@.map_values(|p: Vec<u8>| p@) == texture_payloads(
            crate::recording::command_views(external.texture_commands@),
        )
        &&& self.commands@ == draw_records(external.frame.commands@)
        &&& self.hit_proxies@ == external.frame.hit_proxies.proxies@.map_values(
            |p: HitProxy| hit_proxy_record(p),
        )
    }

    /// In a frame built from a recorded frame, the hit proxies come in the
    /// recorded order, one record each, and each record's enabled and visible
    /// bits say whether that proxy is enabled and whether it is visible.
    pub proof fn lemma_built_hit_proxies(
        self,
        external: ExternalFrame,
        width: u32,
        height: u32,
        runtime: u64,
        i: int,
    )
        requires
            self.built_from(external, width, height, runtime),
            0 <= i < external.frame.hit_proxies.proxies@.len(),
        ensures
            self.hit_proxies@.len() == external.frame.hit_proxies.proxies@.len(),
            self.hit_proxies@[i].prim_id == external.frame.hit_proxies.proxies@[i].prim_id.0,
            self.hit_proxies@[i].order == external.frame.hit_proxies.proxies@[i].order,
            (self.hit_proxies@[i].flags & RFVP_HIT_PROXY_ENABLED != 0)
                <==> external.frame.hit_proxies.proxies@[i].enabled,
            (self.hit_proxies@[i].flags & RFVP_HIT_PROXY_VISIBLE != 0)
                <==> external.frame.hit_proxies.proxies@[i].visible,
    {
        lemma_hit_proxy_record(external.frame.hit_proxies.proxies@[i]);
    }

    pub fn new(external: ExternalFrame, width: u32, height: u32, runtime: u64) -> (f: Self)
        requires
            update_rows_fit(crate::recording::command_views(external.texture_commands@)),
        ensures
            f.built_from(external, width, height, runtime),
    {
        let ghost views = crate::recording::command_views(external.texture_commands@);
        let mut texture_pixels: Vec<Vec<u8>> = Vec::new();
        let mut textures: Vec<RfvpTextureCommandV1> = Vec::new();
        let mut i: usize = 0;
        while i < external.texture_commands.len()
            invariant
                i <= external.texture_commands@.len(),
                views == crate::recording::command_views(external.texture_commands@),
                update_rows_fit(views),
                textures@ == texture_records(views.subrange(0, i as int)),
                texture_pixels@.map_values(|p: Vec<u8>| p@) == texture_payloads(
                    views.subrange(0, i as int),
                ),
            decreases external.texture_commands@.len() - i,
        {
            proof {
                assert(views.subrange(0, i as int + 1).drop_last() =~= views.subrange(0, i as int));
                assert(views.subrange(0, i as int + 1).last() == views[i as int]);
                assert(views[i as int] == external.texture_commands@[i as int]@);
            }
            match texture_command(&external.texture_commands[i]) {
                Some((command, pixels)) => {
                    texture_pixels.push(pixels);
                    textures.push(command);
                },
                None => {},
            }
            proof {
                assert(texture_pixels@.map_values(|p: Vec<u8>| p@) =~= texture_payloads(
                    views.subrange(0, i as int + 1),
                ));
            }
            i = i + 1;
        }
        assert(views.subrange(0, i as int) =~= views);

        let mut commands: Vec<DrawCommandRecord> = Vec::new();
        let mut active_clip: Option<RectI16> = None;
        let mut j: usize = 0;
        while j < external.frame.commands.len()
            invariant
                j <= external.frame.commands@.len(),
                commands@ == draw_records(external.frame.commands@.subrange(0, j as int)),
                active_clip == clip_after(external.frame.commands@.subrange(0, j as int)),
            decreases external.frame.commands@.len() - j,
        {
            let ghost cmds = external.frame.commands@;
            proof {
                assert(cmds.subrange(0, j as int + 1).drop_last() =~= cmds.subrange(0, j as int));
                assert(cmds.subrange(0, j as int + 1).last() == cmds[j as int]);
            }
            match &external.frame.commands[j] {
                RenderCommand::SetClip(rect) => active_clip = Some(*rect),
                RenderCommand::ClearClip => active_clip = None,
                RenderCommand::DrawImage(command) => {
                    commands.push(draw_image(command, active_clip));
                },
                RenderCommand::DrawGlyph(command) => {
                    commands.push(draw_glyph(command, active_clip));
                },
            }
            j = j + 1;
        }
        assert(external.frame.commands@.subrange(0, j as int) =~= external.frame.commands@);

        let mut hit_proxies: Vec<RfvpHitProxyV1> = Vec::new();
        let mut k: usize = 0;
        while k < external.frame.hit_proxies.proxies.len()
            invariant
                k <= external.frame.hit_proxies.proxies@.len(),
                hit_proxies@ == external.frame.hit_proxies.proxies@.subrange(0, k as int).map_values(
                    |p: HitProxy| hit_proxy_record(p),
                ),
            decreases external.frame.hit_proxies.proxies@.len() - k,
        {
            hit_proxies.push(hit_proxy(&external.frame.hit_proxies.proxies[k]));
            proof {
                assert(hit_proxies@ =~= external.frame.hit_proxies.proxies@.subrange(
                    0,
                    k as int + 1,
                ).map_values(|p: HitProxy| hit_proxy_record(p)));
            }
            k = k + 1;
        }
        assert(external.frame.hit_proxies.proxies@.subrange(0, k as int)
            =~= external.frame.hit_proxies.proxies@);

        HostFrame { width, height, runtime, commands, textures, hit_proxies, texture_pixels }
    }
}

} // verus!
