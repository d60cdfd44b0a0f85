use rfvp::host_types::{
    ColorRgba, CommandBlendMode, DrawImageCmd, PortableTextureDesc, RectI16, RectU16,
    RenderCommand, Rgba8, TextureFormat, TextureHandle, Vertex2D,
};
use rfvp::recording::RecordingBackend;

#[test]
fn recording_backend_keeps_texture_and_command_order() {
    let one = 1.0f32.to_bits();
    let zero = 0.0f32.to_bits();
    let mut backend = RecordingBackend::new();
    backend
        .create_texture(
            TextureHandle(3),
            PortableTextureDesc { width: 1, height: 1, format: TextureFormat::Rgba8 },
            &[255, 0, 0, 255],
        )
        .unwrap();
    backend.begin_frame(16, 9).unwrap();
    backend
        .submit_commands(&[RenderCommand::DrawImage(DrawImageCmd {
            texture: TextureHandle(3),
            src: RectU16::default(),
            dst: RectI16::default(),
            color: Rgba8 { r: 255, g: 255, b: 255, a: 255 },
            blend: CommandBlendMode::Normal,
            effect_id: 0,
            clip: None,
            vertices: [Vertex2D {
                position: [zero, zero],
                tex_coord: [zero, zero],
                color: ColorRgba { r: one, g: one, b: one, a: one },
            }; 4],
        })])
        .unwrap();
    backend.end_frame().unwrap();
    backend.destroy_texture(TextureHandle(3));

    assert_eq!(backend.creates.len(), 1);
    assert_eq!(backend.frame.commands.len(), 1);
    assert_eq!(backend.destroys.len(), 1);
    assert_eq!(backend.begin_frame_calls, 1);
    assert_eq!(backend.end_frame_calls, 1);
}
