//! The host's three registries (resource sets, runtimes and the frames
//! handed to the host) and the rules that tie them together: a runtime hands
//! out at most one frame at a time, the frame it hands out stays live until
//! the host releases it, and releasing it makes the runtime's next frame
//! available.
use crate::abi::{
    RfvpHitProxyV1, RfvpInputEventV1, RfvpRuntimeConfigV1, RfvpTextureCommandV1,
    RFVP_INVALID_HANDLE, RFVP_STATUS_BUSY, RFVP_STATUS_INVALID_ARGUMENT, RFVP_STATUS_INVALID_DATA,
    RFVP_STATUS_INVALID_HANDLE, RFVP_STATUS_NO_FRAME, RFVP_STATUS_OK, RUNTIME_CAPABILITIES,
};
use crate::audio::AudioCommandRecord;
use crate::frame::{DrawCommandRecord, HostFrame};
use crate::handle::{Handle, HandleRegistry, RegistryView};
use crate::host_types::{AudioCommand, Nls, RfvpEvent};
use crate::input::{input_batch, input_event_spec};
use crate::platform::HostPlatform;
use crate::recording::ExternalFrame;
use crate::resources::HostResources;
use crate::runtime::RuntimeState;
use vstd::prelude::*;

verus! {

/// The most input records the host may push in one call.
pub const MAX_INPUT_BATCH: usize = 4096;

/// Every live runtime is well formed.
pub open spec fn runtimes_wf(runtimes: RegistryView<RuntimeState>) -> bool {
    forall|r: u64| #[trigger] runtimes.lookup(r) is Some ==> runtimes.lookup(r)->0.wf()
}

/// Every frame that a live runtime says the host holds is a live frame, and
/// that frame names the runtime it came from.
pub open spec fn held_frames_live(
    runtimes: RegistryView<RuntimeState>,
    frames: RegistryView<HostFrame>,
) -> bool {
    forall|r: u64|
        #[trigger] runtimes.lookup(r) is Some ==> match runtimes.lookup(r)->0.active() {
            Some(f) => frames.lookup(f) is Some && frames.lookup(f)->0.runtime == r,
            None => true,
        }
}

/// The frame a live runtime holds is a live frame that names that runtime,
/// so releasing it reaches exactly that runtime.
pub proof fn lemma_held_frame_names_its_runtime(
    runtimes: RegistryView<RuntimeState>,
    frames: RegistryView<HostFrame>,
    runtime: u64,
    frame: u64,
)
    requires
        held_frames_live(runtimes, frames),
        runtimes.lookup(runtime) matches Some(rt) && rt.active() == Some(frame),
    ensures
        frames.lookup(frame) matches Some(fr) && fr.runtime == runtime,
{
    assert(runtimes.lookup(runtime) is Some);
}

/// No live runtime holds more audio commands than the queue's capacity.
pub proof fn lemma_live_runtime_queue_bounded(runtimes: RegistryView<RuntimeState>, runtime: u64)
    requires
        runtimes_wf(runtimes),
        runtimes.lookup(runtime) is Some,
    ensures
        runtimes.lookup(runtime)->0.queued_audio().len() <= crate::runtime::MAX_PENDING_AUDIO_COMMANDS,
{
    runtimes.lookup(runtime)->0.lemma_wf_is_queue_bound();
}

pub struct HostState {
    pub resources: HandleRegistry<HostResources>,
    pub runtimes: HandleRegistry<RuntimeState>,
    pub frames: HandleRegistry<HostFrame>,
}

impl HostState {
    pub open spec fn wf(&self) -> bool {
        &&& self.resources@.wf()
        &&& self.runtimes@.wf()
        &&& self.frames@.wf()
        &&& runtimes_wf(self.runtimes@)
        &&& held_frames_live(self.runtimes@, self.frames@)
    }

    /// Empty registries.
    pub fn new() -> (s: Self)
        ensures
            s.wf(),
            s.resources@ == RegistryView::<HostResources>::empty(),
            s.runtimes@ == RegistryView::<RuntimeState>::empty(),
            s.frames@ == RegistryView::<HostFrame>::empty(),
    {
        HostState {
            resources: HandleRegistry::new(),
            runtimes: HandleRegistry::new(),
            frames: HandleRegistry::new(),
        }
    }

    /// Checks a runtime configuration whose C layout takes `layout_size`
    /// bytes, and gives the game directory and text encoding of the resource
    /// set it names, from which the engine boots.
    pub fn runtime_boot_settings(&self, config: &RfvpRuntimeConfigV1, layout_size: usize) -> (r:
        Result<(String, Nls), i32>)
        ensures
            (config.struct_size as int) < layout_size ==> r == Err::<(String, Nls), i32>(
                RFVP_STATUS_INVALID_ARGUMENT,
            ),
            (config.struct_size as int) >= layout_size ==> match self.resources@.lookup(
                config.resources,
            ) {
                None => r == Err::<(String, Nls), i32>(RFVP_STATUS_INVALID_HANDLE),
                Some(res) => match res.game_root {
                    None => r == Err::<(String, Nls), i32>(RFVP_STATUS_INVALID_DATA),
                    Some(root) => r matches Ok((s, nls)) && s@ == root@ && nls == res.nls,
                },
            },
    {
        if (config.struct_size as usize) < layout_size {
            return Err(RFVP_STATUS_INVALID_ARGUMENT);
        }
        if config.resources == RFVP_INVALID_HANDLE {
            return Err(RFVP_STATUS_INVALID_HANDLE);
        }
        match self.resources.get(Handle::from_raw(config.resources)) {
            None => Err(RFVP_STATUS_INVALID_HANDLE),
            Some(res) => match &res.game_root {
                None => Err(RFVP_STATUS_INVALID_DATA),
                Some(root) => Ok((root.clone(), res.nls)),
            },
        }
    }

    /// Registers a freshly booted runtime of the given virtual size.
    pub fn runtime_register(&mut self, width: u32, height: u32) -> (raw: u64)
        requires
            old(self).wf(),
            old(self).runtimes@.can_insert(),
        ensures
            final(self).wf(),
            final(self).resources@ == old(self).resources@,
            final(self).frames@ == old(self).frames@,
            raw != 0,
            old(self).runtimes@.lookup(raw) is None,
            final(self).runtimes@.lookup(raw) matches Some(rt) && {
                &&& (final(self).runtimes@, raw) == old(self).runtimes@.insert_result(rt)
                &&& rt.wf()
                &&& rt.pending_frame() is None
                &&& rt.queued_audio().len() == 0
                &&& !rt.audio_overflowed()
                &&& rt.size() == (width, height)
                &&& !rt.exit_flag()
                &&& rt.active() is None
                &&& rt.last_polled() is None
            },
    {
        let ghost pre = self.runtimes@;
        let state = RuntimeState::new(width, height);
        let ghost stored = state;
        let handle = self.runtimes.insert(state);
        proof {
            crate::handle::lemma_insert_then_lookup(pre, stored);
            assert forall|r: u64| #[trigger] self.runtimes@.lookup(r) is Some implies self.runtimes@.lookup(r)->0.wf() by {
                if r != handle@ {
                    assert(pre.lookup(r) is Some);
                }
            }
            assert forall|r: u64| #[trigger] self.runtimes@.lookup(r) is Some implies match self.runtimes@.lookup(r)->0.active() {
                Some(f) => self.frames@.lookup(f) is Some && self.frames@.lookup(f)->0.runtime == r,
                None => true,
            } by {
                if r != handle@ {
                    assert(pre.lookup(r) is Some);
                }
            }
        }
        handle.raw()
    }

    /// Forgets runtime `runtime`, if it is live.
    pub fn runtime_destroy(&mut self, runtime: u64)
        requires
            old(self).wf(),
        ensures
            final(self).wf(),
            final(self).runtimes@ == old(self).runtimes@.remove_result(runtime).0,
            final(self).resources@ == old(self).resources@,
            final(self).frames@ == old(self).frames@,
    {
        let ghost pre = self.runtimes@;
        let _ = self.runtimes.remove(Handle::from_raw(runtime));
        proof {
            crate::handle::lemma_remove_then_lookup(pre, runtime);
            assert forall|r: u64| #[trigger] self.runtimes@.lookup(r) is Some implies self.runtimes@.lookup(r)->0.wf() by {
                assert(pre.lookup(r) is Some);
            }
            assert forall|r: u64| #[trigger] self.runtimes@.lookup(r) is Some implies match self.runtimes@.lookup(r)->0.active() {
                Some(f) => self.frames@.lookup(f) is Some && self.frames@.lookup(f)->0.runtime == r,
                None => true,
            } by {
                assert(pre.lookup(r) is Some);
            }
        }
    }

    /// `1` when live runtime `runtime` has asked to exit, else `0`.
    pub fn runtime_is_exit_requested(&self, runtime: u64) -> (r: i32)
        ensures
            r == match self.runtimes@.lookup(runtime) {
                Some(rt) => if rt.exit_flag() {
                    1i32
                } else {
                    0i32
                },
                None => 0i32,
            },
    {
        match self.runtimes.get(Handle::from_raw(runtime)) {
            Some(rt) => rt.is_exit_requested(),
            None => 0,
        }
    }

    /// The capabilities of live runtime `runtime`; none for any other handle.
    pub fn runtime_capabilities(&self, runtime: u64) -> (c: u64)
        ensures
            c == (if self.runtimes@.lookup(runtime) is Some {
                RUNTIME_CAPABILITIES
            } else {
                0u64
            }),
    {
        match self.runtimes.get(Handle::from_raw(runtime)) {
            Some(rt) => rt.capabilities(),
            None => 0,
        }
    }

    /// Converts a batch of input records for runtime `runtime`, at its
    /// virtual size. Batches over the limit are refused before the handle is
    /// looked at; otherwise the records convert in order until one is
    /// refused (see `input_batch`).
    pub fn runtime_input_batch(&self, runtime: u64, events: &[RfvpInputEventV1]) -> (r: (
        Vec<RfvpEvent>,
        i32,
    ))
        ensures
            events@.len() > MAX_INPUT_BATCH ==> r.0@.len() == 0 && r.1
                == RFVP_STATUS_INVALID_ARGUMENT,
            events@.len() <= MAX_INPUT_BATCH && self.runtimes@.lookup(runtime) is None ==> r.0@.len()
                == 0 && r.1 == RFVP_STATUS_INVALID_HANDLE,
            events@.len() <= MAX_INPUT_BATCH && self.runtimes@.lookup(runtime) is Some ==> {
                let (w, h) = self.runtimes@.lookup(runtime)->0.size();
                &&& r.0@.len() <= events@.len()
                &&& forall|i: int|
                    0 <= i < r.0@.len() ==> input_event_spec(events@[i], w, h) == Ok::<
                        RfvpEvent,
                        i32,
                    >(#[trigger] r.0@[i])
                &&& r.0@.len() == events@.len() ==> r.1 == RFVP_STATUS_OK
                &&& r.0@.len() < events@.len() ==> input_event_spec(
                    events@[r.0@.len() as int],
                    w,
                    h,
                ) == Err::<RfvpEvent, i32>(r.1)
            },
    {
        if events.len() > MAX_INPUT_BATCH {
            return (Vec::new(), RFVP_STATUS_INVALID_ARGUMENT);
        }
        match self.runtimes.get(Handle::from_raw(runtime)) {
            None => (Vec::new(), RFVP_STATUS_INVALID_HANDLE),
            Some(rt) => input_batch(events, rt.virtual_size()),
        }
    }
    /// Hands out the oldest audio command of runtime `runtime` (see
    /// `RuntimeState::poll_audio`); an unknown handle is refused.
    pub fn runtime_poll_audio_command(&mut self, runtime: u64) -> (r: Result<AudioCommandRecord, i32>)
        requires
            old(self).wf(),
        ensures
            final(self).wf(),
            final(self).resources@ == old(self).resources@,
            final(self).frames@ == old(self).frames@,
            match old(self).runtimes@.lookup(runtime) {
                None => r == Err::<AudioCommandRecord, i32>(RFVP_STATUS_INVALID_HANDLE)
                    && final(self).runtimes@ == old(self).runtimes@,
                Some(rt) => final(self).runtimes@.lookup(runtime) matches Some(after) && {
                    &&& final(self).runtimes@ == old(self).runtimes@.with_value(
                        crate::handle::raw_index(runtime) as int,
                        Some(after),
                    )
                    &&& after.polled_from(rt, r)
                },
            },
    {
        let ghost pre = self.runtimes@;
        match self.runtimes.get_mut(Handle::from_raw(runtime)) {
            None => Err(RFVP_STATUS_INVALID_HANDLE),
            Some(rt) => {
                let r = rt.poll_audio();
                proof {
                    let after = *rt;
                    crate::handle::lemma_replace_then_lookup(pre, runtime, after);
                    assert(self.runtimes@ =~= pre.with_value(
                        crate::handle::raw_index(runtime) as int,
                        Some(after),
                    ));
                    assert forall|q: u64| #[trigger] self.runtimes@.lookup(q) is Some implies self.runtimes@.lookup(q)->0.wf() by {
                        if q != runtime {
                            assert(pre.lookup(q) is Some);
                        }
                    }
                    assert forall|q: u64| #[trigger] self.runtimes@.lookup(q) is Some implies match self.runtimes@.lookup(q)->0.active() {
                        Some(f) => self.frames@.lookup(f) is Some && self.frames@.lookup(f)->0.runtime == q,
                        None => true,
                    } by {
                        assert(pre.lookup(q) is Some);
                    }
                }
                r
            },
        }
    }
    /// Whether the frame waiting in runtime `runtime` can be handed out: its
    /// texture updates have rows whose byte size fits the ABI's 32-bit field.
    /// Unknown handles have nothing waiting.
    pub fn runtime_pending_frame_fits(&self, runtime: u64) -> (b: bool)
        ensures
            b == match self.runtimes@.lookup(runtime) {
                Some(rt) => rt.pending_rows_fit(),
                None => true,
            },
    {
        match self.runtimes.get(Handle::from_raw(runtime)) {
            Some(rt) => rt.check_pending_rows_fit(),
            None => true,
        }
    }

    /// Hands the waiting frame of runtime `runtime` to the host as a new
    /// frame handle. Refused for an unknown runtime, while the host holds the
    /// runtime's previous frame, and when no frame is waiting.
    pub fn runtime_acquire_frame(&mut self, runtime: u64) -> (r: Result<u64, i32>)
        requires
            old(self).wf(),
            old(self).frames@.can_insert(),
            match old(self).runtimes@.lookup(runtime) {
                Some(rt) => rt.pending_rows_fit(),
                None => true,
            },
        ensures
            final(self).wf(),
            final(self).resources@ == old(self).resources@,
            match old(self).runtimes@.lookup(runtime) {
                None => r == Err::<u64, i32>(RFVP_STATUS_INVALID_HANDLE) && final(self).runtimes@
                    == old(self).runtimes@ && final(self).frames@ == old(self).frames@,
                Some(rt) => if rt.active() is Some {
                    r == Err::<u64, i32>(RFVP_STATUS_BUSY) && final(self).runtimes@ == old(self).runtimes@ && final(self).frames@ == old(self).frames@
                } else if rt.pending_frame() is None {
                    r == Err::<u64, i32>(RFVP_STATUS_NO_FRAME) && final(self).runtimes@ == old(self).runtimes@ && final(self).frames@ == old(self).frames@
                } else {
                    r matches Ok(raw) && final(self).frames@.lookup(raw) matches Some(fr) && final(self).runtimes@.lookup(runtime) matches Some(after) && {
                        &&& fr.built_from(rt.pending_frame()->0, rt.size().0, rt.size().1, runtime)
                        &&& (final(self).frames@, raw) == old(self).frames@.insert_result(fr)
                        &&& final(self).runtimes@ == old(self).runtimes@.with_value(
                            crate::handle::raw_index(runtime) as int,
                            Some(after),
                        )
                        &&& after.active() == Some(raw)
                        &&& after.pending_frame() is None
                        &&& after.agrees_outside_frames(rt)
                    }
                },
            },
    {
        let ghost pre_rt = self.runtimes@;
        let ghost pre_fr = self.frames@;
        let handle = Handle::from_raw(runtime);
        let acquired = match self.runtimes.get_mut(handle) {
            None => return Err(RFVP_STATUS_INVALID_HANDLE),
            Some(rt) => rt.acquire_frame(),
        };
        let ghost idx = crate::handle::raw_index(runtime) as int;
        let ghost rt0 = pre_rt.lookup(runtime)->0;
        let ghost mid = self.runtimes@.values[idx]->0;
        proof {
            crate::handle::lemma_replace_then_lookup(pre_rt, runtime, mid);
            assert(self.runtimes@ =~= pre_rt.with_value(idx, Some(mid)));
        }
        let (external, width, height) = match acquired {
            Ok(v) => v,
            Err(status) => {
                proof {
                    assert(mid == rt0);
                    assert(self.runtimes@.values =~= pre_rt.values);
                    assert(self.runtimes@ =~= pre_rt);
                }
                return Err(status);
            },
        };
        let frame = HostFrame::new(external, width, height, runtime);
        let ghost fr = frame;
        let frame_handle = self.frames.insert(frame);
        let raw = frame_handle.raw();
        proof {
            crate::handle::lemma_insert_then_lookup(pre_fr, fr);
        }
        match self.runtimes.get_mut(handle) {
            Some(rt) => rt.mark_active(raw),
            None => {},
        }
        let ghost after = self.runtimes@.values[idx]->0;
        proof {
            crate::handle::lemma_replace_then_lookup(pre_rt, runtime, after);
            assert(self.runtimes@.generations == pre_rt.generations);
            assert(self.runtimes@.free == pre_rt.free);
            assert(self.runtimes@.values =~= pre_rt.values.update(idx, Some(after)));
            assert(self.runtimes@ =~= pre_rt.with_value(idx, Some(after)));
            assert(after.agrees_outside_frames(rt0));
            after.lemma_agreeing_without_frame_is_wf(rt0);
            assert forall|q: u64| #[trigger] self.runtimes@.lookup(q) is Some implies self.runtimes@.lookup(q)->0.wf() by {
                if q != runtime {
                    assert(pre_rt.lookup(q) is Some);
                }
            }
            assert forall|q: u64| #[trigger] self.runtimes@.lookup(q) is Some implies match self.runtimes@.lookup(q)->0.active() {
                Some(f) => self.frames@.lookup(f) is Some && self.frames@.lookup(f)->0.runtime == q,
                None => true,
            } by {
                if q != runtime {
                    assert(pre_rt.lookup(q) is Some);
                    let p = pre_rt.lookup(q)->0;
                    if p.active() is Some {
                        assert(pre_fr.lookup(p.active()->0) is Some);
                    }
                }
            }
        }
        Ok(raw)
    }

    /// Takes frame `frame` back from the host. The runtime it came from can
    /// hand out its next frame once the frame it holds is released; releasing
    /// any other frame leaves the runtime as it was.
    pub fn frame_release(&mut self, frame: u64)
        requires
            old(self).wf(),
        ensures
            final(self).wf(),
            final(self).resources@ == old(self).resources@,
            final(self).frames@ == old(self).frames@.remove_result(frame).0,
            final(self).frames@.lookup(frame) is None,
            forall|other: u64| other != frame ==> #[trigger] final(self).frames@.lookup(other)
                == old(self).frames@.lookup(other),
            match old(self).frames@.lookup(frame) {
                None => final(self).runtimes@ == old(self).runtimes@,
                Some(fr) => match old(self).runtimes@.lookup(fr.runtime) {
                    None => final(self).runtimes@ == old(self).runtimes@,
                    Some(rt) => final(self).runtimes@.lookup(fr.runtime) matches Some(after) && {
                        &&& final(self).runtimes@ == old(self).runtimes@.with_value(
                            crate::handle::raw_index(fr.runtime) as int,
                            Some(after),
                        )
                        &&& after.active() == (if rt.active() == Some(frame) {
                            None
                        } else {
                            rt.active()
                        })
                        &&& after.pending_frame() == rt.pending_frame()
                        &&& after.agrees_outside_frames(rt)
                    },
                },
            },
    {
        let ghost pre_rt = self.runtimes@;
        let ghost pre_fr = self.frames@;
        let removed = self.frames.remove(Handle::from_raw(frame));
        proof {
            crate::handle::lemma_remove_then_lookup(pre_fr, frame);
        }
        match removed {
            None => {},
            Some(fr) => {
                let owner = fr.runtime;
                match self.runtimes.get_mut(Handle::from_raw(owner)) {
                    None => {},
                    Some(rt) => rt.release_frame(frame),
                }
                proof {
                    if pre_rt.lookup(owner) is Some {
                        let idx = crate::handle::raw_index(owner) as int;
                        let after = self.runtimes@.values[idx]->0;
                        let rt0 = pre_rt.lookup(owner)->0;
                        crate::handle::lemma_replace_then_lookup(pre_rt, owner, after);
                        assert(self.runtimes@ =~= pre_rt.with_value(idx, Some(after)));
                        after.lemma_agreeing_without_frame_is_wf(rt0);
                    }
                }
            },
        }
        proof {
            assert forall|q: u64| #[trigger] self.runtimes@.lookup(q) is Some implies self.runtimes@.lookup(q)->0.wf() by {
                if pre_fr.lookup(frame) is None || q != pre_fr.lookup(frame)->0.runtime {
                    assert(pre_rt.lookup(q) is Some);
                }
            }
            assert forall|q: u64| #[trigger] self.runtimes@.lookup(q) is Some implies match self.runtimes@.lookup(q)->0.active() {
                Some(f) => self.frames@.lookup(f) is Some && self.frames@.lookup(f)->0.runtime == q,
                None => true,
            } by {
                if pre_fr.lookup(frame) is None || q != pre_fr.lookup(frame)->0.runtime {
                    assert(pre_rt.lookup(q) is Some);
                    let p = pre_rt.lookup(q)->0;
                    if p.active() is Some {
                        assert(pre_fr.lookup(p.active()->0) is Some);
                    }
                } else {
                    assert(pre_rt.lookup(q) is Some);
                    let p = pre_rt.lookup(q)->0;
                    if p.active() is Some {
                        assert(pre_fr.lookup(p.active()->0) is Some);
                    }
                }
            }
        }
    }
    /// Starts a step of runtime `runtime` on the platform it runs against:
    /// an unknown handle is refused and nothing changes; otherwise the
    /// platform's clock moves on by `delta_ms` milliseconds, at least one.
    pub fn runtime_begin_step(&self, runtime: u64, platform: &mut HostPlatform, delta_ms: u32) -> (status: i32)
        ensures
            self.runtimes@.lookup(runtime) is None ==> status == RFVP_STATUS_INVALID_HANDLE
                && *final(platform) == *old(platform),
            self.runtimes@.lookup(runtime) is Some ==> {
                let d: int = if delta_ms == 0 {
                    1
                } else {
                    delta_ms as int
                };
                &&& status == RFVP_STATUS_OK
                &&& final(platform).clock.now_us == (if old(platform).clock.now_us + d * 1000
                    > u64::MAX {
                    u64::MAX as int
                } else {
                    old(platform).clock.now_us + d * 1000
                })
                &&& final(platform).filesystem == old(platform).filesystem
                &&& final(platform).renderer == old(platform).renderer
                &&& final(platform).audio == old(platform).audio
            },
    {
        if self.runtimes.get(Handle::from_raw(runtime)).is_none() {
            return RFVP_STATUS_INVALID_HANDLE;
        }
        platform.advance_for_step(delta_ms);
        RFVP_STATUS_OK
    }

    /// Takes in what one engine step of runtime `runtime` produced (see
    /// `RuntimeState::finish_step`); gives whether audio commands were dropped
    /// for the first time, or refuses an unknown handle.
    pub fn runtime_finish_step(
        &mut self,
        runtime: u64,
        exit_requested: bool,
        audio: Vec<AudioCommand>,
        frame: ExternalFrame,
        width: u32,
        height: u32,
    ) -> (r: Result<bool, i32>)
        requires
            old(self).wf(),
        ensures
            final(self).wf(),
            final(self).resources@ == old(self).resources@,
            final(self).frames@ == old(self).frames@,
            match old(self).runtimes@.lookup(runtime) {
                None => r == Err::<bool, i32>(RFVP_STATUS_INVALID_HANDLE) && final(self).runtimes@
                    == old(self).runtimes@,
                Some(rt) => r matches Ok(dropped) && final(self).runtimes@.lookup(runtime) matches Some(
                    after,
                ) && {
                    &&& final(self).runtimes@ == old(self).runtimes@.with_value(
                        crate::handle::raw_index(runtime) as int,
                        Some(after),
                    )
                    &&& after.stepped_from(rt, exit_requested, audio@, frame, width, height, dropped)
                },
            },
    {
        let ghost pre_rt = self.runtimes@;
        match self.runtimes.get_mut(Handle::from_raw(runtime)) {
            None => Err(RFVP_STATUS_INVALID_HANDLE),
            Some(rt) => {
                let dropped = rt.finish_step(exit_requested, audio, frame, width, height);
                proof {
                    let idx = crate::handle::raw_index(runtime) as int;
                    let after = self.runtimes@.values[idx]->0;
                    crate::handle::lemma_replace_then_lookup(pre_rt, runtime, after);
                    assert(self.runtimes@ =~= pre_rt.with_value(idx, Some(after)));
                    assert forall|q: u64| #[trigger] self.runtimes@.lookup(q) is Some implies self.runtimes@.lookup(q)->0.wf() by {
                        if q != runtime {
                            assert(pre_rt.lookup(q) is Some);
                        }
                    }
                    assert forall|q: u64| #[trigger] self.runtimes@.lookup(q) is Some implies match self.runtimes@.lookup(q)->0.active() {
                        Some(f) => self.frames@.lookup(f) is Some && self.frames@.lookup(f)->0.runtime == q,
                        None => true,
                    } by {
                        assert(pre_rt.lookup(q) is Some);
                    }
                }
                Ok(dropped)
            },
        }
    }

    /// The payload of the audio command last polled from runtime `runtime`.
    pub fn runtime_polled_payload(&self, runtime: u64) -> (r: Result<&[u8], i32>)
        ensures
            match self.runtimes@.lookup(runtime) {
                None => r == Err::<&[u8], i32>(RFVP_STATUS_INVALID_HANDLE),
                Some(rt) => r matches Ok(p) && p@ == rt.polled_payload(),
            },
    {
        match self.runtimes.get(Handle::from_raw(runtime)) {
            None => Err(RFVP_STATUS_INVALID_HANDLE),
            Some(rt) => Ok(rt.polled_audio_payload()),
        }
    }

    /// The size of frame `frame`.
    pub fn frame_size(&self, frame: u64) -> (r: Result<(u32, u32), i32>)
        ensures
            match self.frames@.lookup(frame) {
                None => r == Err::<(u32, u32), i32>(RFVP_STATUS_INVALID_HANDLE),
                Some(fr) => r == Ok::<(u32, u32), i32>((fr.width, fr.height)),
            },
    {
        match self.frames.get(Handle::from_raw(frame)) {
            None => Err(RFVP_STATUS_INVALID_HANDLE),
            Some(fr) => Ok((fr.width, fr.height)),
        }
    }

    /// The draw records of frame `frame`.
    pub fn frame_commands(&self, frame: u64) -> (r: Result<&[DrawCommandRecord], i32>)
        ensures
            match self.frames@.lookup(frame) {
                None => r == Err::<&[DrawCommandRecord], i32>(RFVP_STATUS_INVALID_HANDLE),
                Some(fr) => r matches Ok(c) && c@ == fr.commands@,
            },
    {
        match self.frames.get(Handle::from_raw(frame)) {
            None => Err(RFVP_STATUS_INVALID_HANDLE),
            Some(fr) => Ok(fr.commands.as_slice()),
        }
    }

    /// The texture records of frame `frame`.
    pub fn frame_textures(&self, frame: u64) -> (r: Result<&[RfvpTextureCommandV1], i32>)
        ensures
            match self.frames@.lookup(frame) {
                None => r == Err::<&[RfvpTextureCommandV1], i32>(RFVP_STATUS_INVALID_HANDLE),
                Some(fr) => r matches Ok(c) && c@ == fr.textures@,
            },
    {
        match self.frames.get(Handle::from_raw(frame)) {
            None => Err(RFVP_STATUS_INVALID_HANDLE),
            Some(fr) => Ok(fr.textures.as_slice()),
        }
    }

    /// The pixel bytes of the texture records of frame `frame`, one buffer
    /// per record, in the same order.
    pub fn frame_texture_pixels(&self, frame: u64) -> (r: Result<&[Vec<u8>], i32>)
        ensures
            match self.frames@.lookup(frame) {
                None => r == Err::<&[Vec<u8>], i32>(RFVP_STATUS_INVALID_HANDLE),
                Some(fr) => r matches Ok(c) && c@ == fr.texture_pixels@,
            },
    {
        match self.frames.get(Handle::from_raw(frame)) {
            None => Err(RFVP_STATUS_INVALID_HANDLE),
            Some(fr) => Ok(fr.texture_pixels.as_slice()),
        }
    }

    /// The hit-proxy records of frame `frame`.
    pub fn frame_hit_proxies(&self, frame: u64) -> (r: Result<&[RfvpHitProxyV1], i32>)
        ensures
            match self.frames@.lookup(frame) {
                None => r == Err::<&[RfvpHitProxyV1], i32>(RFVP_STATUS_INVALID_HANDLE),
                Some(fr) => r matches Ok(c) && c@ == fr.hit_proxies@,
            },
    {
        match self.frames.get(Handle::from_raw(frame)) {
            None => Err(RFVP_STATUS_INVALID_HANDLE),
            Some(fr) => Ok(fr.hit_proxies.as_slice()),
        }
    }
}

} // verus!
