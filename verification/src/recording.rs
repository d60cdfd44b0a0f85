//! Backend-neutral frame collection for an external render host.
//!
//! `RecordingBackend` keeps, in order, every texture operation and render
//! command that the engine submits, so that a host adapter can replay them.
use crate::host_types::{PortableTextureDesc, RenderCommand, RenderFrame, RfvpError, TextureFormat, TextureHandle, TextureRect};
use vstd::prelude::*;

verus! {

#[derive(Debug, Clone, PartialEq, Eq)]
pub struct RecordedTextureCreate {
    pub handle: TextureHandle,
    pub desc: PortableTextureDesc,
    pub pixels: Vec<u8>,
    pub generation: u64,
}

/// The contents of a recorded texture creation.
pub struct CreateView {
    pub handle: TextureHandle,
    pub desc: PortableTextureDesc,
    pub pixels: Seq<u8>,
    pub generation: u64,
}

impl View for RecordedTextureCreate {
    type V = CreateView;

    open spec fn view(&self) -> CreateView {
        CreateView {
            handle: self.handle,
            desc: self.desc,
            pixels: self.pixels@,
            generation: self.generation,
        }
    }
}

impl RecordedTextureCreate {
    /// A copy with the same contents.
    pub fn duplicate(&self) -> (r: Self)
        ensures
            r@ == self@,
    {
        RecordedTextureCreate {
            handle: self.handle,
            desc: self.desc,
            pixels: vstd::slice::slice_to_vec(self.pixels.as_slice()),
            generation: self.generation,
        }
    }
}

#[derive(Debug, Clone, PartialEq, Eq)]
pub struct RecordedTextureUpdate {
    pub handle: TextureHandle,
    pub rect: TextureRect,
    pub format: TextureFormat,
    pub pixels: Vec<u8>,
    pub generation: u64,
}

/// The contents of a recorded texture update.
pub struct UpdateView {
    pub handle: TextureHandle,
    pub rect: TextureRect,
    pub format: TextureFormat,
    pub pixels: Seq<u8>,
    pub generation: u64,
}

impl View for RecordedTextureUpdate {
    type V = UpdateView;

    open spec fn view(&self) -> UpdateView {
        UpdateView {
            handle: self.handle,
            rect: self.rect,
            format: self.format,
            pixels: self.pixels@,
            generation: self.generation,
        }
    }
}

#[derive(Debug, Clone, Copy, PartialEq, Eq, Structural)]
pub struct RecordedTextureDestroy {
    pub handle: TextureHandle,
}

/// One texture operation, in the order the engine issued it.
#[derive(Debug, Clone, PartialEq, Eq)]
pub enum RecordedTextureCommand {
    Create(RecordedTextureCreate),
    Update(RecordedTextureUpdate),
    Destroy(RecordedTextureDestroy),
}

/// The contents of a texture operation.
pub enum TextureCommandView {
    Create(CreateView),
    Update(UpdateView),
    Destroy(TextureHandle),
}

impl View for RecordedTextureCommand {
    type V = TextureCommandView;

    open spec fn view(&self) -> TextureCommandView {
        match self {
            RecordedTextureCommand::Create(c) => TextureCommandView::Create(c@),
            RecordedTextureCommand::Update(u) => TextureCommandView::Update(u@),
            RecordedTextureCommand::Destroy(d) => TextureCommandView::Destroy(d.handle),
        }
    }
}

/// The contents of a list of texture operations.
pub open spec fn command_views(cmds: Seq<RecordedTextureCommand>) -> Seq<TextureCommandView> {
    cmds.map_values(|c: RecordedTextureCommand| c@)
}

/// The contents of a list of texture creations.
pub open spec fn create_views(creates: Seq<RecordedTextureCreate>) -> Seq<CreateView> {
    creates.map_values(|c: RecordedTextureCreate| c@)
}

/// The contents of a list of texture updates.
pub open spec fn update_views(updates: Seq<RecordedTextureUpdate>) -> Seq<UpdateView> {
    updates.map_values(|u: RecordedTextureUpdate| u@)
}

#[derive(Debug, Clone, PartialEq)]
pub struct RecordingBackend {
    pub creates: Vec<RecordedTextureCreate>,
    pub updates: Vec<RecordedTextureUpdate>,
    pub destroys: Vec<RecordedTextureDestroy>,
    pub texture_commands: Vec<RecordedTextureCommand>,
    pub frame: RenderFrame,
    pub begin_frame_calls: usize,
    pub end_frame_calls: usize,
}

/// What a host hands to its presenter: one frame and the texture work before it.
#[derive(Debug, Clone, PartialEq)]
pub struct ExternalFrame {
    pub frame: RenderFrame,
    pub textures: Vec<RecordedTextureCreate>,
    pub texture_commands: Vec<RecordedTextureCommand>,
}

impl RecordingBackend {
    /// Whether nothing has been recorded yet.
    pub open spec fn is_fresh(&self) -> bool {
        &&& self.creates@.len() == 0
        &&& self.updates@.len() == 0
        &&& self.destroys@.len() == 0
        &&& self.texture_commands@.len() == 0
        &&& self.frame.commands@.len() == 0
        &&& self.frame.hit_proxies.proxies@.len() == 0
        &&& self.begin_frame_calls == 0
        &&& self.end_frame_calls == 0
    }

    pub fn new() -> (b: Self)
        ensures
            b.is_fresh(),
    {
        RecordingBackend {
            creates: Vec::new(),
            updates: Vec::new(),
            destroys: Vec::new(),
            texture_commands: Vec::new(),
            frame: RenderFrame::empty(),
            begin_frame_calls: 0,
            end_frame_calls: 0,
        }
    }

    /// Hands out the frame collected so far and starts an empty one.
    pub fn take_frame(&mut self) -> (f: RenderFrame)
        ensures
            f == old(self).frame,
            final(self).frame.commands@.len() == 0,
            final(self).frame.hit_proxies.proxies@.len() == 0,
            final(self).creates == old(self).creates,
            final(self).updates == old(self).updates,
            final(self).destroys == old(self).destroys,
            final(self).texture_commands == old(self).texture_commands,
            final(self).begin_frame_calls == old(self).begin_frame_calls,
            final(self).end_frame_calls == old(self).end_frame_calls,
    {
        let mut taken = RenderFrame::empty();
        core::mem::swap(&mut taken, &mut self.frame);
        taken
    }

    /// Records a texture creation with a copy of its pixels; never fails.
    pub fn create_texture(
        &mut self,
        handle: TextureHandle,
        desc: PortableTextureDesc,
        data: &[u8],
    ) -> (r: Result<(), RfvpError>)
        ensures
            r is Ok,
            create_views(final(self).creates@) == create_views(old(self).creates@).push(
                CreateView { handle, desc, pixels: data@, generation: 0 },
            ),
            command_views(final(self).texture_commands@) == command_views(
                old(self).texture_commands@,
            ).push(TextureCommandView::Create(CreateView { handle, desc, pixels: data@, generation: 0 })),
            final(self).updates == old(self).updates,
            final(self).destroys == old(self).destroys,
            final(self).frame == old(self).frame,
            final(self).begin_frame_calls == old(self).begin_frame_calls,
            final(self).end_frame_calls == old(self).end_frame_calls,
    {
        let create = RecordedTextureCreate {
            handle,
            desc,
            pixels: vstd::slice::slice_to_vec(data),
            generation: 0,
        };
        self.texture_commands.push(RecordedTextureCommand::Create(create.duplicate()));
        self.creates.push(create);
        assert(create_views(self.creates@) =~= create_views(old(self).creates@).push(create@));
        assert(command_views(self.texture_commands@) =~= command_views(
            old(self).texture_commands@,
        ).push(TextureCommandView::Create(create@)));
        Ok(())
    }

    /// Records a texture destruction.
    pub fn destroy_texture(&mut self, handle: TextureHandle)
        ensures
            final(self).destroys@ == old(self).destroys@.push(RecordedTextureDestroy { handle }),
            command_views(final(self).texture_commands@) == command_views(
                old(self).texture_commands@,
            ).push(TextureCommandView::Destroy(handle)),
            final(self).creates == old(self).creates,
            final(self).updates == old(self).updates,
            final(self).frame == old(self).frame,
            final(self).begin_frame_calls == old(self).begin_frame_calls,
            final(self).end_frame_calls == old(self).end_frame_calls,
    {
        self.destroys.push(RecordedTextureDestroy { handle });
        self.texture_commands.push(RecordedTextureCommand::Destroy(RecordedTextureDestroy { handle }));
        assert(command_views(self.texture_commands@) =~= command_views(
            old(self).texture_commands@,
        ).push(TextureCommandView::Destroy(handle)));
    }

    /// Records a texture update.
    pub fn record_texture_update(&mut self, update: RecordedTextureUpdate)
        ensures
            update_views(final(self).updates@) == update_views(old(self).updates@).push(update@),
            command_views(final(self).texture_commands@) == command_views(
                old(self).texture_commands@,
            ).push(TextureCommandView::Update(update@)),
            final(self).creates == old(self).creates,
            final(self).destroys == old(self).destroys,
            final(self).frame == old(self).frame,
            final(self).begin_frame_calls == old(self).begin_frame_calls,
            final(self).end_frame_calls == old(self).end_frame_calls,
    {
        let ghost u = update@;
        let copy = RecordedTextureUpdate {
            handle: update.handle,
            rect: update.rect,
            format: update.format,
            pixels: vstd::slice::slice_to_vec(update.pixels.as_slice()),
            generation: update.generation,
        };
        self.texture_commands.push(RecordedTextureCommand::Update(copy));
        self.updates.push(update);
        assert(update_views(self.updates@) =~= update_views(old(self).updates@).push(u));
        assert(command_views(self.texture_commands@) =~= command_views(
            old(self).texture_commands@,
        ).push(TextureCommandView::Update(u)));
    }

    /// Stamps `generation` on the most recent texture creation, in the list of
    /// creations and in the operation log.
    pub fn set_last_create_generation(&mut self, generation: u64)
        requires
            old(self).creates@.len() > 0,
            old(self).texture_commands@.len() > 0,
            old(self).texture_commands@.last() is Create,
        ensures
            create_views(final(self).creates@) == create_views(old(self).creates@).update(
                old(self).creates@.len() - 1,
                CreateView { generation, ..old(self).creates@.last()@ },
            ),
            command_views(final(self).texture_commands@) == command_views(
                old(self).texture_commands@,
            ).update(
                old(self).texture_commands@.len() - 1,
                TextureCommandView::Create(
                    CreateView {
                        generation,
                        ..match old(self).texture_commands@.last()@ {
                            TextureCommandView::Create(c) => c,
                            _ => old(self).creates@.last()@,
                        }
                    },
                ),
            ),
            final(self).updates == old(self).updates,
            final(self).destroys == old(self).destroys,
            final(self).frame == old(self).frame,
            final(self).begin_frame_calls == old(self).begin_frame_calls,
            final(self).end_frame_calls == old(self).end_frame_calls,
    {
        let mut last = self.creates.pop().unwrap();
        last.generation = generation;
        self.creates.push(last);
        assert(create_views(self.creates@) =~= create_views(old(self).creates@).update(
            old(self).creates@.len() - 1,
            CreateView { generation, ..old(self).creates@.last()@ },
        ));
        let command = self.texture_commands.pop().unwrap();
        let stamped = match command {
            RecordedTextureCommand::Create(mut c) => {
                c.generation = generation;
                RecordedTextureCommand::Create(c)
            },
            other => other,
        };
        self.texture_commands.push(stamped);
        assert(command_views(self.texture_commands@) =~= command_views(
            old(self).texture_commands@,
        ).update(
            old(self).texture_commands@.len() - 1,
            TextureCommandView::Create(
                CreateView {
                    generation,
                    ..match old(self).texture_commands@.last()@ {
                        TextureCommandView::Create(c) => c,
                        _ => old(self).creates@.last()@,
                    }
                },
            ),
        ));
    }

    /// Starts a new, empty frame; the size is not recorded.
    pub fn begin_frame(&mut self, _width: u16, _height: u16) -> (r: Result<(), RfvpError>)
        requires
            old(self).begin_frame_calls < usize::MAX,
        ensures
            r is Ok,
            final(self).begin_frame_calls == old(self).begin_frame_calls + 1,
            final(self).frame.commands@.len() == 0,
            final(self).frame.hit_proxies.proxies@.len() == 0,
            final(self).creates == old(self).creates,
            final(self).updates == old(self).updates,
            final(self).destroys == old(self).destroys,
            final(self).texture_commands == old(self).texture_commands,
            final(self).end_frame_calls == old(self).end_frame_calls,
    {
        self.begin_frame_calls += 1;
        self.frame = RenderFrame::empty();
        Ok(())
    }

    /// Appends render commands to the current frame, in order.
    pub fn submit_commands(&mut self, commands: &[RenderCommand]) -> (r: Result<(), RfvpError>)
        ensures
            r is Ok,
            final(self).frame.commands@ == old(self).frame.commands@ + commands@,
            final(self).frame.hit_proxies == old(self).frame.hit_proxies,
            final(self).creates == old(self).creates,
            final(self).updates == old(self).updates,
            final(self).destroys == old(self).destroys,
            final(self).texture_commands == old(self).texture_commands,
            final(self).begin_frame_calls == old(self).begin_frame_calls,
            final(self).end_frame_calls == old(self).end_frame_calls,
    {
        let mut i: usize = 0;
        while i < commands.len()
            invariant
                i <= commands@.len(),
                self.frame.commands@ == old(self).frame.commands@ + commands@.subrange(0, i as int),
                self.frame.hit_proxies == old(self).frame.hit_proxies,
                self.creates == old(self).creates,
                self.updates == old(self).updates,
                self.destroys == old(self).destroys,
                self.texture_commands == old(self).texture_commands,
                self.begin_frame_calls == old(self).begin_frame_calls,
                self.end_frame_calls == old(self).end_frame_calls,
            decreases commands@.len() - i,
        {
            self.frame.commands.push(commands[i]);
            assert(commands@.subrange(0, i as int + 1) =~= commands@.subrange(0, i as int).push(
                commands@[i as int],
            ));
            i = i + 1;
        }
        assert(commands@.subrange(0, i as int) =~= commands@);
        Ok(())
    }

    /// Closes the current frame.
    pub fn end_frame(&mut self) -> (r: Result<(), RfvpError>)
        requires
            old(self).end_frame_calls < usize::MAX,
        ensures
            r is Ok,
            final(self).end_frame_calls == old(self).end_frame_calls + 1,
            final(self).frame == old(self).frame,
            final(self).creates == old(self).creates,
            final(self).updates == old(self).updates,
            final(self).destroys == old(self).destroys,
            final(self).texture_commands == old(self).texture_commands,
            final(self).begin_frame_calls == old(self).begin_frame_calls,
    {
        self.end_frame_calls += 1;
        Ok(())
    }
}

} // verus!
