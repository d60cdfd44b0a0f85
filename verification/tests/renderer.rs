use rfvp::host_types::{
    BlendMode, ColorRgba, CommandBlendMode, PixelFormat, RectI16, RenderCommand, RfvpError, Rgba8,
    ScissorRect, TextureDesc, TextureFormat, TextureHandle, TextureId, TextureRect, Vertex2D,
};
use rfvp::recording::RecordedTextureCommand;
use rfvp::renderer::{scissor_clip, HostRenderer};

fn rgba_desc(width: u32, height: u32) -> TextureDesc {
    TextureDesc { width, height, format: PixelFormat::Rgba8 }
}

fn rect(x: u32, y: u32, width: u32, height: u32) -> TextureRect {
    TextureRect { x, y, width, height }
}

fn vertices() -> [Vertex2D; 4] {
    let one = 1.0f32.to_bits();
    [Vertex2D { position: [0, 0], tex_coord: [0, 0], color: ColorRgba { r: one, g: one, b: one, a: one } }; 4]
}

#[test]
fn creation_stamps_generations_and_keeps_pixels() {
    let mut renderer = HostRenderer::new();
    renderer.create_texture(TextureId(7), rgba_desc(2, 1), Some(&[1, 2, 3, 4, 5, 6, 7, 8])).unwrap();
    renderer.create_texture(TextureId(7), rgba_desc(1, 1), None).unwrap();
    let created = &renderer.backend.creates;
    assert_eq!(created.len(), 2);
    assert_eq!(created[0].generation, 1);
    assert_eq!(created[0].pixels, vec![1, 2, 3, 4, 5, 6, 7, 8]);
    assert_eq!(created[1].generation, 2);
    assert!(created[1].pixels.is_empty());
}

#[test]
fn oversized_textures_are_clamped_and_other_formats_refused() {
    let mut renderer = HostRenderer::new();
    renderer.create_texture(TextureId(1), rgba_desc(70_000, 65_535), None).unwrap();
    assert_eq!(renderer.backend.creates[0].desc.width, 65_535);
    assert_eq!(renderer.backend.creates[0].desc.height, 65_535);
    let refused = renderer.create_texture(
        TextureId(2),
        TextureDesc { width: 1, height: 1, format: PixelFormat::Other },
        None,
    );
    assert_eq!(refused, Err(RfvpError::Unsupported));
    assert_eq!(renderer.backend.creates.len(), 1);
}

#[test]
fn updates_copy_rows_and_advance_the_generation() {
    let mut renderer = HostRenderer::new();
    renderer.create_texture(TextureId(3), rgba_desc(2, 2), Some(&[0; 16])).unwrap();
    renderer.update_texture(TextureId(3), rect(1, 0, 1, 2), &[1, 1, 1, 1, 2, 2, 2, 2]).unwrap();
    assert_eq!(renderer.backend.updates.len(), 1);
    assert_eq!(renderer.backend.updates[0].generation, 2);
    assert_eq!(renderer.backend.updates[0].format, TextureFormat::Rgba8);

    // An update whose rows leave the texture fails, but still spends a generation.
    let failed = renderer.update_texture(TextureId(3), rect(0, 1, 2, 2), &[9; 16]);
    assert_eq!(failed, Err(RfvpError::InvalidArgument));
    assert_eq!(renderer.backend.updates.len(), 1);
    renderer.update_texture(TextureId(3), rect(0, 0, 1, 1), &[5; 4]).unwrap();
    assert_eq!(renderer.backend.updates[1].generation, 4);

    let frame = renderer.take_external_frame();
    let kinds: Vec<u8> = frame
        .texture_commands
        .iter()
        .map(|c| match c {
            RecordedTextureCommand::Create(_) => 0,
            RecordedTextureCommand::Update(_) => 1,
            RecordedTextureCommand::Destroy(_) => 2,
        })
        .collect();
    assert_eq!(kinds, vec![0, 1, 1]);
}

#[test]
fn malformed_updates_are_refused() {
    let mut renderer = HostRenderer::new();
    assert_eq!(
        renderer.update_texture(TextureId(9), rect(0, 0, 1, 1), &[0; 4]),
        Err(RfvpError::NotFound)
    );
    renderer.create_texture(TextureId(9), rgba_desc(2, 2), Some(&[0; 16])).unwrap();
    assert_eq!(
        renderer.update_texture(TextureId(9), rect(0, 0, 0, 1), &[0; 4]),
        Err(RfvpError::InvalidArgument)
    );
    assert_eq!(
        renderer.update_texture(TextureId(9), rect(0, 0, 2, 2), &[0; 15]),
        Err(RfvpError::InvalidArgument)
    );
    assert!(renderer.backend.updates.is_empty());
}

#[test]
fn destroyed_textures_start_over() {
    let mut renderer = HostRenderer::new();
    renderer.create_texture(TextureId(4), rgba_desc(1, 1), Some(&[0; 4])).unwrap();
    renderer.update_texture(TextureId(4), rect(0, 0, 1, 1), &[1; 4]).unwrap();
    renderer.destroy_texture(TextureId(4));
    assert_eq!(renderer.backend.destroys.len(), 1);
    assert_eq!(renderer.backend.destroys[0].handle, TextureHandle(4));
    renderer.create_texture(TextureId(4), rgba_desc(1, 1), Some(&[0; 4])).unwrap();
    assert_eq!(renderer.backend.creates.last().unwrap().generation, 1);

    // An update of a missing texture is refused but still spends a generation.
    renderer.destroy_texture(TextureId(4));
    assert_eq!(
        renderer.update_texture(TextureId(4), rect(0, 0, 1, 1), &[1; 4]),
        Err(RfvpError::NotFound)
    );
    renderer.create_texture(TextureId(4), rgba_desc(1, 1), Some(&[0; 4])).unwrap();
    assert_eq!(renderer.backend.creates.last().unwrap().generation, 2);
}

#[test]
fn white_texture_is_created_once() {
    let mut renderer = HostRenderer::new();
    renderer.ensure_white().unwrap();
    renderer.ensure_white().unwrap();
    assert_eq!(renderer.backend.creates.len(), 1);
    let white = &renderer.backend.creates[0];
    assert_eq!(white.handle, TextureHandle(u32::MAX));
    assert_eq!(white.pixels, vec![255, 255, 255, 255]);
    assert_eq!(white.generation, 1);
}

#[test]
fn frames_larger_than_16_bits_exceed_capacity() {
    let mut renderer = HostRenderer::new();
    assert_eq!(renderer.begin_frame(70_000, 10, None), Err(RfvpError::CapacityExceeded));
    assert_eq!(renderer.backend.begin_frame_calls, 0);
    renderer.begin_frame(1280, 720, None).unwrap();
    renderer.end_frame().unwrap();
    assert_eq!(renderer.backend.begin_frame_calls, 1);
    assert_eq!(renderer.backend.end_frame_calls, 1);
}

#[test]
fn scissor_rectangles_are_clamped_to_16_bits() {
    let clip = scissor_clip(ScissorRect { x: -40_000, y: 40_000, width: -5, height: 70_000 });
    assert_eq!(clip, RectI16 { x: i16::MIN, y: i16::MAX, w: 0, h: i16::MAX });
    let clip = scissor_clip(ScissorRect { x: 3, y: -4, width: 5, height: 6 });
    assert_eq!(clip, RectI16 { x: 3, y: -4, w: 5, h: 6 });
}

#[test]
fn measured_sprites_become_image_draws() {
    let mut renderer = HostRenderer::new();
    renderer.begin_frame(64, 64, None).unwrap();
    let dst = RectI16 { x: 1, y: 2, w: 3, h: 4 };
    let color = Rgba8 { r: 10, g: 20, b: 30, a: 40 };
    renderer
        .draw_sprite_measured(TextureId(8), dst, color, BlendMode::Screen, Some(ScissorRect { x: 0, y: 0, width: 99_999, height: 5 }), vertices())
        .unwrap();
    renderer.draw_sprite_measured(TextureId(8), dst, color, BlendMode::Alpha, None, vertices()).unwrap();
    let commands = &renderer.backend.frame.commands;
    assert_eq!(commands.len(), 2);
    match commands[0] {
        RenderCommand::DrawImage(draw) => {
            assert_eq!(draw.texture, TextureHandle(8));
            assert_eq!(draw.dst, dst);
            assert_eq!(draw.color, color);
            assert_eq!(draw.blend, CommandBlendMode::Add);
            assert_eq!(draw.effect_id, 0);
            assert_eq!(draw.clip, Some(RectI16 { x: 0, y: 0, w: i16::MAX, h: 5 }));
            assert_eq!(draw.src.w, 0);
        }
        _ => panic!("expected an image draw"),
    }
    match commands[1] {
        RenderCommand::DrawImage(draw) => {
            assert_eq!(draw.blend, CommandBlendMode::Normal);
            assert_eq!(draw.clip, None);
        }
        _ => panic!("expected an image draw"),
    }
}
