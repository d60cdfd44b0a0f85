use rfvp::abi::{
    RfvpRectI32V1, RfvpRectU16V1, RFVP_BLEND_REVERSE_SUBTRACT, RFVP_DRAW_FLAG_HAS_CLIP,
    RFVP_DRAW_FLAG_HAS_SRC_RECT, RFVP_DRAW_GLYPH, RFVP_DRAW_IMAGE, RFVP_HIT_PROXY_ENABLED,
    RFVP_HIT_PROXY_VISIBLE, RFVP_TEXTURE_CREATE, RFVP_TEXTURE_DESTROY,
    RFVP_TEXTURE_FORMAT_LUMA_A8, RFVP_TEXTURE_UPDATE,
};
use rfvp::frame::{
    draw_glyph, draw_image, saturating_add_i16, texture_format, texture_pixel_bytes, DrawVertices,
    GlyphCorner,
    HostFrame,
};
use rfvp::host_types::{
    ColorRgba, CommandBlendMode, DrawGlyphCmd, DrawImageCmd, HitProxy, HitProxyList, PortableTextureDesc,
    PrimId, RectI16, RectU16, RenderCommand, RenderFrame, Rgba8, TextureFormat, TextureHandle,
    TextureRect, Vertex2D,
};
use rfvp::recording::{
    ExternalFrame, RecordedTextureCommand, RecordedTextureCreate, RecordedTextureDestroy,
    RecordedTextureUpdate,
};

fn vertex() -> Vertex2D {
    let one = 1.0f32.to_bits();
    Vertex2D { position: [0, 0], tex_coord: [0, 0], color: ColorRgba { r: one, g: one, b: one, a: one } }
}

fn image(clip: Option<RectI16>) -> DrawImageCmd {
    DrawImageCmd {
        texture: TextureHandle(1),
        src: RectU16::default(),
        dst: RectI16 { x: 1, y: 2, w: 3, h: 4 },
        color: Rgba8 { r: 1, g: 2, b: 3, a: 4 },
        blend: CommandBlendMode::Sub,
        effect_id: 6,
        clip,
        vertices: [vertex(); 4],
    }
}

fn glyph(src: RectU16) -> DrawGlyphCmd {
    DrawGlyphCmd {
        texture: TextureHandle(2),
        src,
        dst: RectI16 { x: 32_000, y: -5, w: 1_000, h: 10 },
        color: Rgba8 { r: 9, g: 9, b: 9, a: 9 },
        clip: None,
    }
}

#[test]
fn draws_follow_the_clip_in_force() {
    let set = RectI16 { x: 0, y: 0, w: 100, h: 50 };
    let own = RectI16 { x: 5, y: 5, w: 5, h: 5 };
    let external = ExternalFrame {
        frame: RenderFrame {
            commands: vec![
                RenderCommand::DrawImage(image(None)),
                RenderCommand::SetClip(set),
                RenderCommand::DrawImage(image(None)),
                RenderCommand::DrawImage(image(Some(own))),
                RenderCommand::ClearClip,
                RenderCommand::DrawGlyph(glyph(RectU16 { x: 1, y: 1, w: 2, h: 2 })),
            ],
            hit_proxies: HitProxyList {
                proxies: vec![HitProxy {
                    prim_id: PrimId(11),
                    rect: RectI16 { x: 1, y: 1, w: 2, h: 2 },
                    order: 3,
                    enabled: true,
                    visible: false,
                }],
            },
        },
        textures: Vec::new(),
        texture_commands: Vec::new(),
    };
    let frame = HostFrame::new(external, 320, 240, 77);
    assert_eq!((frame.width, frame.height, frame.runtime), (320, 240, 77));
    assert_eq!(frame.commands.len(), 4);
    assert_eq!(frame.commands[0].flags, 0);
    assert_eq!(frame.commands[0].kind, RFVP_DRAW_IMAGE);
    assert_eq!(frame.commands[0].blend, RFVP_BLEND_REVERSE_SUBTRACT);
    assert_eq!(frame.commands[0].effect_id, 6);
    assert_eq!(frame.commands[0].dst_rect, RfvpRectI32V1 { x: 1, y: 2, width: 3, height: 4 });
    assert_eq!(frame.commands[0].clip_rect, RfvpRectI32V1 { x: 0, y: 0, width: 0, height: 0 });
    assert_eq!(frame.commands[1].flags, RFVP_DRAW_FLAG_HAS_CLIP);
    assert_eq!(frame.commands[1].clip_rect, RfvpRectI32V1 { x: 0, y: 0, width: 100, height: 50 });
    assert_eq!(frame.commands[2].clip_rect, RfvpRectI32V1 { x: 5, y: 5, width: 5, height: 5 });
    let text = frame.commands[3];
    assert_eq!(text.kind, RFVP_DRAW_GLYPH);
    assert_eq!(text.flags, RFVP_DRAW_FLAG_HAS_SRC_RECT);
    assert_eq!(text.texture_id, 2);
    assert_eq!(text.src_rect, RfvpRectU16V1 { x: 1, y: 1, width: 2, height: 2 });
    assert_eq!(
        text.vertices,
        DrawVertices::Glyph(
            GlyphCorner { x: 32_000, y: 5, u: 0, v: 1 },
            GlyphCorner { x: 32_000, y: -5, u: 0, v: 0 },
            GlyphCorner { x: i16::MAX, y: 5, u: 1, v: 1 },
            GlyphCorner { x: i16::MAX, y: -5, u: 1, v: 0 },
        )
    );
    assert_eq!(frame.hit_proxies.len(), 1);
    assert_eq!(frame.hit_proxies[0].prim_id, 11);
    assert_eq!(frame.hit_proxies[0].flags, RFVP_HIT_PROXY_ENABLED);
    assert_eq!(frame.hit_proxies[0].order, 3);
}

#[test]
fn texture_work_becomes_records_with_payloads() {
    let external = ExternalFrame {
        frame: RenderFrame::empty(),
        textures: Vec::new(),
        texture_commands: vec![
            RecordedTextureCommand::Create(RecordedTextureCreate {
                handle: TextureHandle(1),
                desc: PortableTextureDesc { width: 3, height: 2, format: TextureFormat::LumaA8 },
                pixels: vec![7; 12],
                generation: 5,
            }),
            RecordedTextureCommand::Create(RecordedTextureCreate {
                handle: TextureHandle(2),
                desc: PortableTextureDesc { width: 1, height: 1, format: TextureFormat::Other },
                pixels: vec![1],
                generation: 1,
            }),
            RecordedTextureCommand::Update(RecordedTextureUpdate {
                handle: TextureHandle(1),
                rect: TextureRect { x: 1, y: 1, width: 2, height: 1 },
                format: TextureFormat::LumaA8,
                pixels: vec![3; 4],
                generation: 6,
            }),
            RecordedTextureCommand::Destroy(RecordedTextureDestroy { handle: TextureHandle(1) }),
        ],
    };
    let frame = HostFrame::new(external, 1, 1, 1);
    // The creation in a format the ABI cannot carry is left out.
    assert_eq!(frame.textures.len(), 3);
    assert_eq!(frame.texture_pixels.len(), 3);
    let create = frame.textures[0];
    assert_eq!(create.kind, RFVP_TEXTURE_CREATE);
    assert_eq!(create.format, RFVP_TEXTURE_FORMAT_LUMA_A8);
    assert_eq!(create.row_bytes, 6);
    assert_eq!(create.rect, RfvpRectI32V1 { x: 0, y: 0, width: 3, height: 2 });
    assert_eq!(create.generation, 5);
    assert_eq!(create.pixels_size, 12);
    assert_eq!(frame.texture_pixels[0], vec![7; 12]);
    let update = frame.textures[1];
    assert_eq!(update.kind, RFVP_TEXTURE_UPDATE);
    assert_eq!(update.row_bytes, 4);
    assert_eq!(update.rect, RfvpRectI32V1 { x: 1, y: 1, width: 2, height: 1 });
    assert_eq!(update.generation, 6);
    assert_eq!(frame.texture_pixels[1], vec![3; 4]);
    let destroy = frame.textures[2];
    assert_eq!(destroy.kind, RFVP_TEXTURE_DESTROY);
    assert_eq!(destroy.texture_id, 1);
    assert_eq!(destroy.mip_count, 0);
    assert!(frame.texture_pixels[2].is_empty());
}

#[test]
fn single_draw_conversions() {
    let clip = RectI16 { x: 1, y: 1, w: 1, h: 1 };
    let record = draw_image(&image(None), Some(clip));
    assert_eq!(record.flags, RFVP_DRAW_FLAG_HAS_CLIP);
    let record = draw_glyph(&glyph(RectU16::default()), None);
    assert_eq!(record.flags, 0);
    assert_eq!(saturating_add_i16(i16::MIN, -1), i16::MIN);
    assert_eq!(saturating_add_i16(3, 4), 7);
    assert_eq!(texture_format(TextureFormat::Other), None);
    assert_eq!(texture_pixel_bytes(TextureFormat::Rgba8), 4);
    let flags_both = RFVP_HIT_PROXY_ENABLED | RFVP_HIT_PROXY_VISIBLE;
    assert_eq!(flags_both, 3);
}
