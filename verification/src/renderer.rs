//! The host-side renderer and clock behind the ABI runtime.
//!
//! The renderer records texture work and render commands for the host and
//! keeps, per texture, a generation that advances on every create and update
//! and a copy of the texture's pixels that updates are applied to.
use crate::host_types::{
    BlendMode, ColorRgba, CommandBlendMode, DrawImageCmd, PixelFormat, PortableTextureDesc,
    RectI16, RectU16, RenderCommand, Rgba8, RfvpError, ScissorRect, TextureDesc, TextureFormat,
    TextureHandle, TextureId, TextureRect, Vertex2D,
};
use crate::recording::{
    CreateView, ExternalFrame, RecordedTextureCreate, RecordedTextureUpdate, RecordingBackend,
    UpdateView,
};
use std::collections::HashMap;
use vstd::prelude::*;

verus! {

broadcast use vstd::std_specs::hash::group_hash_axioms;

/// The generation that follows `current`; an unknown texture starts at 1, and
/// zero is skipped on wrap.
pub open spec fn bump_generation(current: Option<u64>) -> u64 {
    let g = match current {
        Some(g) => g,
        None => 0,
    };
    if g == u64::MAX {
        1
    } else {
        (g + 1) as u64
    }
}

/// The texture format the host stores for a pixel format the engine asks for.
pub open spec fn stored_format(format: PixelFormat) -> Option<TextureFormat> {
    match format {
        PixelFormat::Rgba8 => Some(TextureFormat::Rgba8),
        PixelFormat::LumaA8 => Some(TextureFormat::LumaA8),
        PixelFormat::Other => None,
    }
}

/// Bytes per pixel of a stored texture; none for a format the host cannot update.
pub open spec fn stored_pixel_bytes(format: TextureFormat) -> Option<int> {
    match format {
        TextureFormat::Rgba8 => Some(4),
        TextureFormat::LumaA8 => Some(2),
        TextureFormat::Other => None,
    }
}

/// `dst` with `bytes` written from `offset` on.
pub open spec fn write_at(dst: Seq<u8>, offset: int, bytes: Seq<u8>) -> Seq<u8> {
    Seq::new(
        dst.len(),
        |j: int|
            if offset <= j < offset + bytes.len() {
                bytes[j - offset]
            } else {
                dst[j]
            },
    )
}

/// Where row `r` of an update lands in the texture's bytes.
pub open spec fn row_start(row_bytes: int, pixel_bytes: int, rect: TextureRect, r: int) -> int {
    (rect.y + r) * row_bytes + rect.x * pixel_bytes
}

/// The texture's bytes after the first `k` rows of `src` are written into the rectangle.
pub open spec fn copy_rows(
    dst: Seq<u8>,
    src: Seq<u8>,
    row_bytes: int,
    pixel_bytes: int,
    rect: TextureRect,
    k: nat,
) -> Seq<u8>
    decreases k,
{
    if k == 0 {
        dst
    } else {
        let rect_row = rect.width * pixel_bytes;
        let r = k - 1;
        write_at(
            copy_rows(dst, src, row_bytes, pixel_bytes, rect, r as nat),
            row_start(row_bytes, pixel_bytes, rect, r),
            src.subrange(r * rect_row, (r + 1) * rect_row),
        )
    }
}

/// Whether row `r` of the update lies inside a texture of `len` bytes.
pub open spec fn row_fits(len: int, row_bytes: int, pixel_bytes: int, rect: TextureRect, r: int) -> bool {
    row_start(row_bytes, pixel_bytes, rect, r) + rect.width * pixel_bytes <= len
}

/// The number of leading rows of the update that fit, up to the rectangle's height.
pub open spec fn fitting_rows(len: int, row_bytes: int, pixel_bytes: int, rect: TextureRect) -> nat {
    if forall|r: int| 0 <= r < rect.height ==> row_fits(len, row_bytes, pixel_bytes, rect, r) {
        rect.height as nat
    } else {
        let first = choose|r: int|
            0 <= r < rect.height && !row_fits(len, row_bytes, pixel_bytes, rect, r) && forall|
                q: int,
            |
                0 <= q < r ==> row_fits(len, row_bytes, pixel_bytes, rect, q);
        first as nat
    }
}

/// Whether the byte arithmetic of an update stays within `usize` up to the
/// first row that does not fit, the point where the update stops.
pub open spec fn update_arithmetic_fits(
    len: int,
    row_bytes: int,
    pixel_bytes: int,
    rect: TextureRect,
) -> bool {
    &&& rect.width * pixel_bytes * rect.height <= usize::MAX
    &&& forall|r: int|
        0 <= r < rect.height && (forall|q: int|
            0 <= q < r ==> row_fits(len, row_bytes, pixel_bytes, rect, q)) ==> rect.y + r
            <= usize::MAX && row_start(row_bytes, pixel_bytes, rect, r) + rect.width * pixel_bytes
            <= usize::MAX
}

/// A leading run of rows that fit ends where `fitting_rows` says.
proof fn lemma_fitting_rows(len: int, row_bytes: int, pixel_bytes: int, rect: TextureRect, k: int)
    requires
        0 <= k <= rect.height,
        forall|q: int| 0 <= q < k ==> row_fits(len, row_bytes, pixel_bytes, rect, q),
        k == rect.height || !row_fits(len, row_bytes, pixel_bytes, rect, k),
    ensures
        fitting_rows(len, row_bytes, pixel_bytes, rect) == k,
{
    if k < rect.height {
        let first = choose|r: int|
            0 <= r < rect.height && !row_fits(len, row_bytes, pixel_bytes, rect, r) && forall|
                q: int,
            |
                0 <= q < r ==> row_fits(len, row_bytes, pixel_bytes, rect, q);
        assert(0 <= k < rect.height && !row_fits(len, row_bytes, pixel_bytes, rect, k) && forall|
            q: int,
        |
            0 <= q < k ==> row_fits(len, row_bytes, pixel_bytes, rect, q));
        if first < k {
            assert(row_fits(len, row_bytes, pixel_bytes, rect, first));
        }
        if first > k {
            assert(row_fits(len, row_bytes, pixel_bytes, rect, k));
        }
    }
}

/// Copies `n` bytes of `src` from `src_start` into `dst` at `dst_start`.
fn copy_into(dst: &mut Vec<u8>, dst_start: usize, src: &[u8], src_start: usize, n: usize)
    requires
        dst_start + n <= old(dst)@.len(),
        src_start + n <= src@.len(),
    ensures
        final(dst)@ == write_at(
            old(dst)@,
            dst_start as int,
            src@.subrange(src_start as int, src_start + n),
        ),
{
    let src_len = src.len();
    let dst_len = dst.len();
    let mut c: usize = 0;
    while c < n
        invariant
            c <= n,
            src@.len() == src_len,
            dst@.len() == dst_len,
            dst_len == old(dst)@.len(),
            dst_start + n <= old(dst)@.len(),
            src_start + n <= src@.len(),
            dst@ == write_at(old(dst)@, dst_start as int, src@.subrange(src_start as int, src_start + c)),
        decreases n - c,
    {
        let byte = src[src_start + c];
        dst.set(dst_start + c, byte);
        assert(dst@ =~= write_at(
            old(dst)@,
            dst_start as int,
            src@.subrange(src_start as int, src_start + c + 1),
        ));
        c = c + 1;
    }
}

/// Copies the rows of `src` into the rectangle `rect` of `dst`, row by row,
/// stopping at the first row that falls outside `dst`; returns how many rows
/// were copied.
fn copy_rect(
    dst: &mut Vec<u8>,
    src: &[u8],
    rect: TextureRect,
    row_bytes: usize,
    pixel_bytes: usize,
    rect_row: usize,
) -> (done: usize)
    requires
        rect_row == rect.width * pixel_bytes,
        rect_row * rect.height <= src@.len(),
        update_arithmetic_fits(old(dst)@.len() as int, row_bytes as int, pixel_bytes as int, rect),
    ensures
        done == fitting_rows(old(dst)@.len() as int, row_bytes as int, pixel_bytes as int, rect),
        final(dst)@ == copy_rows(old(dst)@, src@, row_bytes as int, pixel_bytes as int, rect, done as nat),
{
    let ghost len = old(dst)@.len() as int;
    let height = rect.height as usize;
    let y = rect.y as usize;
    let x = rect.x as usize;
    assert(y == rect.y && x == rect.x && height == rect.height);
    let mut row: usize = 0;
    while row < height
        invariant
            row <= height,
            height == rect.height,
            y == rect.y,
            x == rect.x,
            rect_row == rect.width * pixel_bytes,
            rect_row * rect.height <= src@.len(),
            dst@.len() == len,
            len == old(dst)@.len(),
            dst@ == copy_rows(old(dst)@, src@, row_bytes as int, pixel_bytes as int, rect, row as nat),
            forall|q: int| 0 <= q < row ==> row_fits(len, row_bytes as int, pixel_bytes as int, rect, q),
            update_arithmetic_fits(len, row_bytes as int, pixel_bytes as int, rect),
        decreases height - row,
    {
        proof {
            assert((row + 1) * rect_row <= rect_row * rect.height) by (nonlinear_arith)
                requires
                    row + 1 <= rect.height,
            ;
            assert((row + 1) * rect_row == row * rect_row + rect_row) by (nonlinear_arith);
            assert(0 <= x * pixel_bytes) by (nonlinear_arith);
            assert(0 <= (y + row) * row_bytes) by (nonlinear_arith);
            assert(row_start(row_bytes as int, pixel_bytes as int, rect, row as int) + rect.width
                * pixel_bytes <= usize::MAX);
            assert(rect.y + row <= usize::MAX);
        }
        let src_start = row * rect_row;
        let dst_start = (y + row) * row_bytes + x * pixel_bytes;
        if dst_start + rect_row > dst.len() {
            proof {
                lemma_fitting_rows(len, row_bytes as int, pixel_bytes as int, rect, row as int);
            }
            return row;
        }
        copy_into(dst, dst_start, src, src_start, rect_row);
        row = row + 1;
    }
    proof {
        lemma_fitting_rows(len, row_bytes as int, pixel_bytes as int, rect, rect.height as int);
    }
    row
}

/// Whether an update of texture `t` through `rect` from `src_len` source
/// bytes keeps its byte arithmetic within `usize` as far as the update gets:
/// the size of one rectangle row, then of the whole rectangle, then the
/// offsets of the rows copied.
pub open spec fn update_allowed(t: CreateView, rect: TextureRect, src_len: int) -> bool {
    match stored_pixel_bytes(t.desc.format) {
        Some(pb) => rect.width * pb <= usize::MAX && (rect.width == 0 || rect.height == 0 || (
        rect.width * pb * rect.height <= usize::MAX && (src_len < rect.width * pb * rect.height
            || update_arithmetic_fits(t.pixels.len() as int, t.desc.width * pb, pb, rect)))),
        None => true,
    }
}

/// What an update does to a texture's bytes, and its outcome: a format the
/// host cannot update is unsupported; an empty rectangle or too few source
/// bytes is an invalid argument; otherwise the rows are copied in order until
/// one falls outside the texture, which is an invalid argument too.
pub open spec fn apply_update_spec(t: CreateView, rect: TextureRect, src: Seq<u8>) -> (
    Seq<u8>,
    Result<(), RfvpError>,
) {
    match stored_pixel_bytes(t.desc.format) {
        None => (t.pixels, Err(RfvpError::Unsupported)),
        Some(pb) => {
            let row_bytes = t.desc.width * pb;
            let rect_row = rect.width * pb;
            if rect.width == 0 || rect.height == 0 || src.len() < rect_row * rect.height {
                (t.pixels, Err(RfvpError::InvalidArgument))
            } else {
                let fit = fitting_rows(t.pixels.len() as int, row_bytes, pb, rect);
                (
                    copy_rows(t.pixels, src, row_bytes, pb, rect, fit),
                    if fit < rect.height {
                        Err(RfvpError::InvalidArgument)
                    } else {
                        Ok(())
                    },
                )
            }
        },
    }
}

/// Applies an update's rows to one texture's bytes.
fn apply_update(texture: &mut RecordedTextureCreate, rect: TextureRect, pixels: &[u8]) -> (r: Result<
    (),
    RfvpError,
>)
    requires
        update_allowed(old(texture)@, rect, pixels@.len() as int),
    ensures
        (final(texture)@.pixels, r) == apply_update_spec(old(texture)@, rect, pixels@),
        final(texture).desc == old(texture).desc,
        final(texture).handle == old(texture).handle,
        final(texture).generation == old(texture).generation,
{
    let pixel_bytes: usize = match texture.desc.format {
        TextureFormat::Rgba8 => 4,
        TextureFormat::LumaA8 => 2,
        _ => return Err(RfvpError::Unsupported),
    };
    let row_bytes = texture.desc.width as usize * pixel_bytes;
    let rect_row_bytes = rect.width as usize * pixel_bytes;
    if rect.width == 0 || rect.height == 0 || pixels.len() < rect_row_bytes * rect.height as usize {
        return Err(RfvpError::InvalidArgument);
    }
    let done = copy_rect(&mut texture.pixels, pixels, rect, row_bytes, pixel_bytes, rect_row_bytes);
    if done < rect.height as usize {
        return Err(RfvpError::InvalidArgument);
    }
    Ok(())
}

/// `v` clamped into the range of `i16`.
pub open spec fn clamp_i16(v: i32) -> i16 {
    if v < i16::MIN {
        i16::MIN
    } else if v > i16::MAX {
        i16::MAX
    } else {
        v as i16
    }
}

/// A length `v` clamped into `0..=i16::MAX`.
pub open spec fn clamp_extent_i16(v: i32) -> i16 {
    if v < 0 {
        0
    } else if v > i16::MAX {
        i16::MAX
    } else {
        v as i16
    }
}

/// The clip rectangle a sprite draw carries for a scissor rectangle.
pub open spec fn scissor_clip_spec(s: ScissorRect) -> RectI16 {
    RectI16 {
        x: clamp_i16(s.x),
        y: clamp_i16(s.y),
        w: clamp_extent_i16(s.width),
        h: clamp_extent_i16(s.height),
    }
}

/// Whether a clip rectangle is a scissor rectangle saturated into 16 bits:
/// each coordinate that fits is kept and one that does not becomes the
/// nearest bound, and each extent that fits is kept, a negative one becomes
/// zero and one that is too large the largest extent.
pub open spec fn clamps_scissor(s: ScissorRect, r: RectI16) -> bool {
    &&& i16::MIN <= s.x <= i16::MAX ==> r.x == s.x
    &&& s.x < i16::MIN ==> r.x == i16::MIN
    &&& s.x > i16::MAX ==> r.x == i16::MAX
    &&& i16::MIN <= s.y <= i16::MAX ==> r.y == s.y
    &&& s.y < i16::MIN ==> r.y == i16::MIN
    &&& s.y > i16::MAX ==> r.y == i16::MAX
    &&& 0 <= s.width <= i16::MAX ==> r.w == s.width
    &&& s.width < 0 ==> r.w == 0
    &&& s.width > i16::MAX ==> r.w == i16::MAX
    &&& 0 <= s.height <= i16::MAX ==> r.h == s.height
    &&& s.height < 0 ==> r.h == 0
    &&& s.height > i16::MAX ==> r.h == i16::MAX
}

/// A sprite's clip is its scissor rectangle saturated into 16 bits, and its
/// extents are never negative.
pub proof fn lemma_scissor_clip(s: ScissorRect)
    ensures
        clamps_scissor(s, scissor_clip_spec(s)),
        scissor_clip_spec(s).w >= 0 && scissor_clip_spec(s).h >= 0,
{
}

pub fn scissor_clip(s: ScissorRect) -> (r: RectI16)
    ensures
        r == scissor_clip_spec(s),
        clamps_scissor(s, r),
{
    let x = if s.x < -32768 {
        -32768i16
    } else if s.x > 32767 {
        32767i16
    } else {
        s.x as i16
    };
    let y = if s.y < -32768 {
        -32768i16
    } else if s.y > 32767 {
        32767i16
    } else {
        s.y as i16
    };
    let w = if s.width < 0 {
        0i16
    } else if s.width > 32767 {
        32767i16
    } else {
        s.width as i16
    };
    let h = if s.height < 0 {
        0i16
    } else if s.height > 32767 {
        32767i16
    } else {
        s.height as i16
    };
    RectI16 { x, y, w, h }
}

/// The image draw of a sprite over `texture` whose screen rectangle and
/// colour were measured from its vertices.
pub open spec fn sprite_draw_spec(
    texture: TextureId,
    dst: RectI16,
    color: Rgba8,
    blend: BlendMode,
    scissor: Option<ScissorRect>,
    vertices: [Vertex2D; 4],
) -> DrawImageCmd {
    DrawImageCmd {
        texture: TextureHandle(texture.0),
        src: RectU16 { x: 0, y: 0, w: 0, h: 0 },
        dst,
        color,
        blend: match blend {
            BlendMode::Opaque | BlendMode::Alpha => CommandBlendMode::Normal,
            BlendMode::Add | BlendMode::Screen => CommandBlendMode::Add,
            BlendMode::Multiply => CommandBlendMode::Mul,
        },
        effect_id: 0,
        clip: match scissor {
            Some(s) => Some(scissor_clip_spec(s)),
            None => None,
        },
        vertices,
    }
}

/// Every generation handed out is nonzero, and a texture with no generation
/// (never created, or destroyed since) starts again at 1.
pub proof fn lemma_generations_are_nonzero(current: Option<u64>)
    ensures
        bump_generation(current) >= 1,
        bump_generation(None) == 1,
{
}

/// After a texture is destroyed its generation is forgotten, so the next
/// create or update of the same id is stamped with generation 1.
pub proof fn lemma_destroy_restarts_generation(generations: Map<u32, u64>, id: u32)
    ensures
        bump_generation(generations.remove(id).get(id)) == 1,
{
}

/// The host-side renderer: a recording backend plus per-texture bookkeeping.
pub struct HostRenderer {
    pub backend: RecordingBackend,
    generations: HashMap<u32, u64>,
    textures: HashMap<u32, RecordedTextureCreate>,
    white_ready: bool,
}

impl HostRenderer {
    /// The current generation of each texture handle that has one.
    pub closed spec fn generations(&self) -> Map<u32, u64> {
        self.generations@
    }

    /// The host's copy of each live texture.
    pub closed spec fn textures(&self) -> Map<u32, CreateView> {
        self.textures@.map_values(|t: RecordedTextureCreate| t@)
    }

    /// The recording backend, as contracts speak of it.
    pub closed spec fn recorder(&self) -> RecordingBackend {
        self.backend
    }

    /// Whether the white texture used by solid fills has been created.
    pub closed spec fn white_ready(&self) -> bool {
        self.white_ready
    }

    pub fn new() -> (r: Self)
        ensures
            r.recorder().is_fresh(),
            r.generations() == Map::<u32, u64>::empty(),
            r.textures() == Map::<u32, CreateView>::empty(),
            !r.white_ready(),
    {
        let r = HostRenderer {
            backend: RecordingBackend::new(),
            generations: HashMap::new(),
            textures: HashMap::new(),
            white_ready: false,
        };
        assert(r.textures() =~= Map::<u32, CreateView>::empty());
        r
    }

    /// Hands out the frame and the texture work recorded since the last call.
    pub fn take_external_frame(&mut self) -> (f: ExternalFrame)
        ensures
            f.frame == old(self).recorder().frame,
            f.textures == old(self).recorder().creates,
            f.texture_commands == old(self).recorder().texture_commands,
            final(self).recorder().frame.commands@.len() == 0,
            final(self).recorder().frame.hit_proxies.proxies@.len() == 0,
            final(self).recorder().creates@.len() == 0,
            final(self).recorder().texture_commands@.len() == 0,
            final(self).recorder().updates == old(self).recorder().updates,
            final(self).recorder().destroys == old(self).recorder().destroys,
            final(self).recorder().begin_frame_calls == old(self).recorder().begin_frame_calls,
            final(self).recorder().end_frame_calls == old(self).recorder().end_frame_calls,
            final(self).generations() == old(self).generations(),
            final(self).textures() == old(self).textures(),
            final(self).white_ready() == old(self).white_ready(),
    {
        let mut texture_commands = Vec::new();
        core::mem::swap(&mut texture_commands, &mut self.backend.texture_commands);
        let frame = self.backend.take_frame();
        let mut textures = Vec::new();
        core::mem::swap(&mut textures, &mut self.backend.creates);
        ExternalFrame { frame, textures, texture_commands }
    }

    /// Advances and returns the generation of `handle`.
    fn next_generation(&mut self, handle: TextureHandle) -> (g: u64)
        ensures
            g == bump_generation(old(self).generations().get(handle.0)),
            final(self).generations() == old(self).generations().insert(handle.0, g),
            final(self).textures() == old(self).textures(),
            final(self).recorder() == old(self).recorder(),
            final(self).white_ready() == old(self).white_ready(),
    {
        let current = match self.generations.get(&handle.0) {
            Some(g) => *g,
            None => 0,
        };
        let next = current.wrapping_add(1);
        let generation = if next < 1 {
            1
        } else {
            next
        };
        self.generations.insert(handle.0, generation);
        generation
    }

    /// Records a creation of `handle` and stamps it with the handle's next generation.
    fn record_create(&mut self, handle: TextureHandle, desc: PortableTextureDesc, data: &[u8])
        ensures
            ({
                let g = bump_generation(old(self).generations().get(handle.0));
                let created = CreateView { handle, desc, pixels: data@, generation: g };
                &&& final(self).generations() == old(self).generations().insert(handle.0, g)
                &&& final(self).textures() == old(self).textures().insert(handle.0, created)
                &&& crate::recording::create_views(final(self).recorder().creates@)
                    == crate::recording::create_views(old(self).recorder().creates@).push(created)
                &&& crate::recording::command_views(final(self).recorder().texture_commands@)
                    == crate::recording::command_views(old(self).recorder().texture_commands@).push(
                    crate::recording::TextureCommandView::Create(created),
                )
            }),
            final(self).recorder().updates == old(self).recorder().updates,
            final(self).recorder().destroys == old(self).recorder().destroys,
            final(self).recorder().frame == old(self).recorder().frame,
            final(self).recorder().begin_frame_calls == old(self).recorder().begin_frame_calls,
            final(self).recorder().end_frame_calls == old(self).recorder().end_frame_calls,
            final(self).white_ready() == old(self).white_ready(),
    {
        let _ = self.backend.create_texture(handle, desc, data);
        proof {
            let views = crate::recording::create_views(self.backend.creates@);
            assert(views.len() == self.backend.creates@.len());
            assert(views[views.len() - 1] == self.backend.creates@.last()@);
            let cviews = crate::recording::command_views(self.backend.texture_commands@);
            assert(cviews.len() == self.backend.texture_commands@.len());
            assert(cviews[cviews.len() - 1] == self.backend.texture_commands@.last()@);
        }
        let generation = self.next_generation(handle);
        self.backend.set_last_create_generation(generation);
        proof {
            let views = crate::recording::create_views(self.backend.creates@);
            assert(views.len() == self.backend.creates@.len());
        }
        let last = self.backend.creates.len() - 1;
        let stored = self.backend.creates[last].duplicate();
        proof {
            let views = crate::recording::create_views(self.backend.creates@);
            assert(views[last as int] == self.backend.creates@[last as int]@);
            assert(stored@ == (CreateView { handle, desc, pixels: data@, generation }));
        }
        self.textures.insert(handle.0, stored);
        proof {
            let created = CreateView { handle, desc, pixels: data@, generation };
            assert(self.textures() =~= old(self).textures().insert(handle.0, created));
            assert(crate::recording::create_views(self.backend.creates@) =~= crate::recording::create_views(
                old(self).recorder().creates@,
            ).push(created));
            assert(crate::recording::command_views(self.backend.texture_commands@)
                =~= crate::recording::command_views(old(self).recorder().texture_commands@).push(
                crate::recording::TextureCommandView::Create(created),
            ));
        }
    }

    /// Creates the 1x1 white texture that solid fills sample, once.
    pub fn ensure_white(&mut self) -> (r: Result<(), RfvpError>)
        ensures
            r is Ok,
            final(self).white_ready(),
            old(self).white_ready() ==> *final(self) == *old(self),
            !old(self).white_ready() ==> ({
                let handle = TextureHandle(0xffff_ffff);
                let g = bump_generation(old(self).generations().get(handle.0));
                let created = CreateView {
                    handle,
                    desc: PortableTextureDesc { width: 1, height: 1, format: TextureFormat::Rgba8 },
                    pixels: seq![255u8, 255u8, 255u8, 255u8],
                    generation: g,
                };
                &&& final(self).generations() == old(self).generations().insert(handle.0, g)
                &&& final(self).textures() == old(self).textures().insert(handle.0, created)
                &&& crate::recording::create_views(final(self).recorder().creates@)
                    == crate::recording::create_views(old(self).recorder().creates@).push(created)
                &&& crate::recording::command_views(final(self).recorder().texture_commands@)
                    == crate::recording::command_views(old(self).recorder().texture_commands@).push(
                    crate::recording::TextureCommandView::Create(created),
                )
                &&& final(self).recorder().updates == old(self).recorder().updates
                &&& final(self).recorder().destroys == old(self).recorder().destroys
                &&& final(self).recorder().frame == old(self).recorder().frame
                &&& final(self).recorder().begin_frame_calls == old(self).recorder().begin_frame_calls
                &&& final(self).recorder().end_frame_calls == old(self).recorder().end_frame_calls
            }),
    {
        if self.white_ready {
            return Ok(());
        }
        let handle = TextureHandle(0xffff_ffff);
        let white: [u8; 4] = [255, 255, 255, 255];
        assert(white@ =~= seq![255u8, 255u8, 255u8, 255u8]);
        self.record_create(
            handle,
            PortableTextureDesc { width: 1, height: 1, format: TextureFormat::Rgba8 },
            white.as_slice(),
        );
        self.white_ready = true;
        Ok(())
    }

    /// Creates texture `id`; a pixel format the host cannot store is refused.
    /// Sizes above 65535 are clamped; missing pixels record an empty buffer.
    pub fn create_texture(&mut self, id: TextureId, desc: TextureDesc, pixels: Option<&[u8]>) -> (r:
        Result<(), RfvpError>)
        ensures
            match stored_format(desc.format) {
                None => r == Err::<(), RfvpError>(RfvpError::Unsupported) && *final(self) == *old(self),
                Some(format) => {
                    let handle = TextureHandle(id.0);
                    let g = bump_generation(old(self).generations().get(id.0));
                    let created = CreateView {
                        handle,
                        desc: PortableTextureDesc {
                            width: if desc.width > 0xffff {
                                0xffffu16
                            } else {
                                desc.width as u16
                            },
                            height: if desc.height > 0xffff {
                                0xffffu16
                            } else {
                                desc.height as u16
                            },
                            format,
                        },
                        pixels: match pixels {
                            Some(p) => p@,
                            None => Seq::empty(),
                        },
                        generation: g,
                    };
                    &&& r is Ok
                    &&& final(self).generations() == old(self).generations().insert(id.0, g)
                    &&& final(self).textures() == old(self).textures().insert(id.0, created)
                    &&& crate::recording::create_views(final(self).recorder().creates@)
                        == crate::recording::create_views(old(self).recorder().creates@).push(created)
                    &&& crate::recording::command_views(final(self).recorder().texture_commands@)
                        == crate::recording::command_views(
                        old(self).recorder().texture_commands@,
                    ).push(crate::recording::TextureCommandView::Create(created))
                    &&& final(self).recorder().updates == old(self).recorder().updates
                    &&& final(self).recorder().destroys == old(self).recorder().destroys
                    &&& final(self).recorder().frame == old(self).recorder().frame
                    &&& final(self).recorder().begin_frame_calls == old(self).recorder().begin_frame_calls
                    &&& final(self).recorder().end_frame_calls == old(self).recorder().end_frame_calls
                    &&& final(self).white_ready() == old(self).white_ready()
                },
            },
    {
        let handle = TextureHandle(id.0);
        let format = match desc.format {
            PixelFormat::Rgba8 => TextureFormat::Rgba8,
            PixelFormat::LumaA8 => TextureFormat::LumaA8,
            _ => return Err(RfvpError::Unsupported),
        };
        let empty: [u8; 0] = [];
        let data = match pixels {
            Some(p) => p,
            None => empty.as_slice(),
        };
        assert(empty@ =~= Seq::<u8>::empty());
        let width = if desc.width < 0xffff {
            desc.width as u16
        } else {
            0xffff
        };
        let height = if desc.height < 0xffff {
            desc.height as u16
        } else {
            0xffff
        };
        self.record_create(handle, PortableTextureDesc { width, height, format }, data);
        Ok(())
    }

    /// Copies the rows of `pixels` into the rectangle `rect` of texture `id`
    /// and records the update with a new generation.
    ///
    /// The generation of `id` advances whatever the outcome. A missing texture
    /// is not found; otherwise the outcome and the texture's new bytes are
    /// those of `apply_update_spec`, and only a complete copy stamps the new
    /// generation on the texture and records the update.
    pub fn update_texture(&mut self, id: TextureId, rect: TextureRect, pixels: &[u8]) -> (r: Result<
        (),
        RfvpError,
    >)
        requires
            old(self).textures().contains_key(id.0) ==> update_allowed(
                old(self).textures()[id.0],
                rect,
                pixels@.len() as int,
            ),
        ensures
            ({
                let g = bump_generation(old(self).generations().get(id.0));
                &&& final(self).generations() == old(self).generations().insert(id.0, g)
                &&& final(self).white_ready() == old(self).white_ready()
                &&& final(self).recorder().creates == old(self).recorder().creates
                &&& final(self).recorder().destroys == old(self).recorder().destroys
                &&& final(self).recorder().frame == old(self).recorder().frame
                &&& final(self).recorder().begin_frame_calls == old(self).recorder().begin_frame_calls
                &&& final(self).recorder().end_frame_calls == old(self).recorder().end_frame_calls
                &&& if !old(self).textures().contains_key(id.0) {
                    &&& r == Err::<(), RfvpError>(RfvpError::NotFound)
                    &&& final(self).textures() == old(self).textures()
                    &&& final(self).recorder() == old(self).recorder()
                } else {
                    let t = old(self).textures()[id.0];
                    let (written, outcome) = apply_update_spec(t, rect, pixels@);
                    &&& r == outcome
                    &&& final(self).textures() == old(self).textures().insert(
                        id.0,
                        CreateView {
                            pixels: written,
                            generation: if outcome is Ok {
                                g
                            } else {
                                t.generation
                            },
                            ..t
                        },
                    )
                    &&& outcome is Err ==> final(self).recorder() == old(self).recorder()
                    &&& outcome is Ok ==> crate::recording::update_views(
                        final(self).recorder().updates@,
                    ) == crate::recording::update_views(old(self).recorder().updates@).push(
                        UpdateView {
                            handle: TextureHandle(id.0),
                            rect,
                            format: t.desc.format,
                            pixels: pixels@,
                            generation: g,
                        },
                    )
                    &&& outcome is Ok ==> crate::recording::command_views(
                        final(self).recorder().texture_commands@,
                    ) == crate::recording::command_views(
                        old(self).recorder().texture_commands@,
                    ).push(
                        crate::recording::TextureCommandView::Update(
                            UpdateView {
                                handle: TextureHandle(id.0),
                                rect,
                                format: t.desc.format,
                                pixels: pixels@,
                                generation: g,
                            },
                        ),
                    )
                }
            }),
    {
        let handle = TextureHandle(id.0);
        let generation = self.next_generation(handle);
        let mut texture = match self.textures.remove(&handle.0) {
            Some(t) => t,
            None => return Err(RfvpError::NotFound),
        };
        let ghost t = texture@;
        proof {
            assert(old(self).textures()[id.0] == t);
        }
        let outcome = apply_update(&mut texture, rect, pixels);
        let format = texture.desc.format;
        match outcome {
            Ok(()) => {
                texture.generation = generation;
                self.textures.insert(handle.0, texture);
                self.backend.record_texture_update(
                    RecordedTextureUpdate {
                        handle,
                        rect,
                        format,
                        pixels: vstd::slice::slice_to_vec(pixels),
                        generation,
                    },
                );
            },
            Err(_) => {
                self.textures.insert(handle.0, texture);
            },
        }
        proof {
            let (written, _) = apply_update_spec(t, rect, pixels@);
            assert(self.textures() =~= old(self).textures().insert(
                id.0,
                CreateView {
                    pixels: written,
                    generation: if outcome is Ok {
                        generation
                    } else {
                        t.generation
                    },
                    ..t
                },
            ));
        }
        outcome
    }

    /// Records the destruction of texture `id` and forgets its generation and pixels.
    pub fn destroy_texture(&mut self, id: TextureId)
        ensures
            final(self).generations() == old(self).generations().remove(id.0),
            final(self).textures() == old(self).textures().remove(id.0),
            final(self).recorder().destroys@ == old(self).recorder().destroys@.push(
                crate::recording::RecordedTextureDestroy { handle: TextureHandle(id.0) },
            ),
            crate::recording::command_views(final(self).recorder().texture_commands@)
                == crate::recording::command_views(old(self).recorder().texture_commands@).push(
                crate::recording::TextureCommandView::Destroy(TextureHandle(id.0)),
            ),
            final(self).recorder().creates == old(self).recorder().creates,
            final(self).recorder().updates == old(self).recorder().updates,
            final(self).recorder().frame == old(self).recorder().frame,
            final(self).recorder().begin_frame_calls == old(self).recorder().begin_frame_calls,
            final(self).recorder().end_frame_calls == old(self).recorder().end_frame_calls,
            final(self).white_ready() == old(self).white_ready(),
    {
        let handle = TextureHandle(id.0);
        self.backend.destroy_texture(handle);
        self.generations.remove(&handle.0);
        self.textures.remove(&handle.0);
        assert(self.textures() =~= old(self).textures().remove(id.0));
    }

    /// Starts a frame; a size that does not fit 16 bits exceeds the host's capacity.
    pub fn begin_frame(&mut self, width: u32, height: u32, _clear: Option<ColorRgba>) -> (r: Result<
        (),
        RfvpError,
    >)
        requires
            old(self).recorder().begin_frame_calls < usize::MAX,
        ensures
            width > 0xffff || height > 0xffff ==> r == Err::<(), RfvpError>(
                RfvpError::CapacityExceeded,
            ) && *final(self) == *old(self),
            width <= 0xffff && height <= 0xffff ==> {
                &&& r is Ok
                &&& final(self).recorder().begin_frame_calls == old(self).recorder().begin_frame_calls + 1
                &&& final(self).recorder().frame.commands@.len() == 0
                &&& final(self).recorder().frame.hit_proxies.proxies@.len() == 0
                &&& final(self).recorder().creates == old(self).recorder().creates
                &&& final(self).recorder().updates == old(self).recorder().updates
                &&& final(self).recorder().destroys == old(self).recorder().destroys
                &&& final(self).recorder().texture_commands == old(self).recorder().texture_commands
                &&& final(self).recorder().end_frame_calls == old(self).recorder().end_frame_calls
                &&& final(self).generations() == old(self).generations()
                &&& final(self).textures() == old(self).textures()
                &&& final(self).white_ready() == old(self).white_ready()
            },
    {
        if width > 0xffff || height > 0xffff {
            return Err(RfvpError::CapacityExceeded);
        }
        self.backend.begin_frame(width as u16, height as u16)
    }

    /// Draws a sprite over texture `texture`, given the screen rectangle and
    /// colour measured from its vertices, as one image draw.
    pub fn draw_sprite_measured(
        &mut self,
        texture: TextureId,
        dst: RectI16,
        color: Rgba8,
        blend: BlendMode,
        scissor: Option<ScissorRect>,
        vertices: [Vertex2D; 4],
    ) -> (r: Result<(), RfvpError>)
        ensures
            r is Ok,
            final(self).recorder().frame.commands@ == old(self).recorder().frame.commands@.push(
                RenderCommand::DrawImage(sprite_draw_spec(texture, dst, color, blend, scissor, vertices)),
            ),
            final(self).recorder().frame.hit_proxies == old(self).recorder().frame.hit_proxies,
            final(self).recorder().creates == old(self).recorder().creates,
            final(self).recorder().updates == old(self).recorder().updates,
            final(self).recorder().destroys == old(self).recorder().destroys,
            final(self).recorder().texture_commands == old(self).recorder().texture_commands,
            final(self).recorder().begin_frame_calls == old(self).recorder().begin_frame_calls,
            final(self).recorder().end_frame_calls == old(self).recorder().end_frame_calls,
            final(self).generations() == old(self).generations(),
            final(self).textures() == old(self).textures(),
            final(self).white_ready() == old(self).white_ready(),
    {
        let clip = match scissor {
            Some(s) => Some(scissor_clip(s)),
            None => None,
        };
        let draw = DrawImageCmd {
            texture: TextureHandle(texture.0),
            src: RectU16 { x: 0, y: 0, w: 0, h: 0 },
            dst,
            color,
            blend: crate::frame::command_blend(blend),
            effect_id: 0,
            clip,
            vertices,
        };
        let commands = [RenderCommand::DrawImage(draw)];
        let r = self.backend.submit_commands(commands.as_slice());
        assert(commands@ =~= seq![RenderCommand::DrawImage(draw)]);
        r
    }

    /// Closes the current frame.
    pub fn end_frame(&mut self) -> (r: Result<(), RfvpError>)
        requires
            old(self).recorder().end_frame_calls < usize::MAX,
        ensures
            r is Ok,
            final(self).recorder().end_frame_calls == old(self).recorder().end_frame_calls + 1,
            final(self).recorder().frame == old(self).recorder().frame,
            final(self).recorder().creates == old(self).recorder().creates,
            final(self).recorder().updates == old(self).recorder().updates,
            final(self).recorder().destroys == old(self).recorder().destroys,
            final(self).recorder().texture_commands == old(self).recorder().texture_commands,
            final(self).recorder().begin_frame_calls == old(self).recorder().begin_frame_calls,
            final(self).generations() == old(self).generations(),
            final(self).textures() == old(self).textures(),
            final(self).white_ready() == old(self).white_ready(),
    {
        self.backend.end_frame()
    }
}

/// The engine clock of a windowless host: it moves only when the host steps it.
pub struct HostClock {
    pub now_us: u64,
}

impl HostClock {
    pub fn new() -> (c: Self)
        ensures
            c.now_us == 0,
    {
        HostClock { now_us: 0 }
    }

    /// Advances the clock by `delta_ms` milliseconds, saturating at the end of time.
    pub fn advance_ms(&mut self, delta_ms: u32)
        ensures
            final(self).now_us == (if old(self).now_us + delta_ms * 1000 > u64::MAX {
                u64::MAX as int
            } else {
                old(self).now_us + delta_ms * 1000
            }),
    {
        // A u32 count of milliseconds always fits in u64 microseconds.
        let delta_us = delta_ms as u64 * 1000;
        self.now_us = self.now_us.saturating_add(delta_us);
    }

    pub fn ticks_us(&self) -> (t: u64)
        ensures
            t == self.now_us,
    {
        self.now_us
    }
}

} // verus!
