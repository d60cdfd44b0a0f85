//! The host-visible state of one runtime between engine steps: the frame
//! waiting to be presented, the audio commands waiting to be polled, and the
//! frame the host currently holds.
//!
//! Stepping the engine itself happens outside; after each step the caller
//! hands the step's results to this state, which decides what the host sees.
use crate::abi::{
    RFVP_STATUS_BUSY, RFVP_STATUS_NO_COMMAND, RFVP_STATUS_NO_FRAME, RUNTIME_CAPABILITIES,
};
use crate::audio::{pending_audio_command, AudioCommandRecord, PendingAudioCommand};
use crate::host_types::AudioCommand;
use crate::frame::update_rows_fit;
use crate::recording::{command_views, ExternalFrame};
use std::collections::VecDeque;
use vstd::prelude::*;

verus! {

/// How many audio commands may wait for the host before further ones are dropped.
pub const MAX_PENDING_AUDIO_COMMANDS: usize = 1024;

pub struct RuntimeState {
    pending_frame: Option<ExternalFrame>,
    audio_commands: VecDeque<AudioCommand>,
    pending_audio: Option<PendingAudioCommand>,
    audio_queue_overflowed: bool,
    width: u32,
    height: u32,
    exit_requested: bool,
    active_frame: Option<u64>,
}

impl RuntimeState {
    /// The frame waiting to be presented.
    pub closed spec fn pending_frame(&self) -> Option<ExternalFrame> {
        self.pending_frame
    }

    /// The audio commands waiting to be polled, oldest first.
    pub closed spec fn queued_audio(&self) -> Seq<AudioCommand> {
        self.audio_commands@
    }

    /// Whether audio commands have been dropped because the queue was full.
    pub closed spec fn audio_overflowed(&self) -> bool {
        self.audio_queue_overflowed
    }

    /// The virtual size of the runtime.
    pub closed spec fn size(&self) -> (u32, u32) {
        (self.width, self.height)
    }

    /// Whether the engine has asked to exit.
    pub closed spec fn exit_flag(&self) -> bool {
        self.exit_requested
    }

    /// The raw handle of the frame the host holds, if any.
    pub closed spec fn active(&self) -> Option<u64> {
        self.active_frame
    }

    /// The last polled audio command, kept alive for the host.
    pub closed spec fn last_polled(&self) -> Option<AudioCommandRecord> {
        match self.pending_audio {
            Some(p) => Some(p.command),
            None => None,
        }
    }

    /// Whether `self` agrees with `other` on everything but the waiting frame
    /// and the frame the host holds.
    pub open spec fn agrees_outside_frames(self, other: RuntimeState) -> bool {
        &&& self.queued_audio() == other.queued_audio()
        &&& self.audio_overflowed() == other.audio_overflowed()
        &&& self.size() == other.size()
        &&& self.exit_flag() == other.exit_flag()
        &&& self.last_polled() == other.last_polled()
        &&& self.polled_payload() == other.polled_payload()
    }

    /// Whether `self` and `r` are what polling `pre` for audio gives: the
    /// oldest command leaves the queue and comes back as its record, and its
    /// payload is kept for the host; an empty queue gives nothing to poll.
    pub open spec fn polled_from(self, pre: RuntimeState, r: Result<AudioCommandRecord, i32>) -> bool {
        if pre.queued_audio().len() == 0 {
            r == Err::<AudioCommandRecord, i32>(RFVP_STATUS_NO_COMMAND) && self == pre
        } else {
            let first = pre.queued_audio()[0];
            &&& self.wf()
            &&& self.queued_audio() == pre.queued_audio().drop_first()
            &&& r == Ok::<AudioCommandRecord, i32>(
                AudioCommandRecord {
                    payload_size: crate::audio::audio_payload(first).len() as usize,
                    ..crate::audio::audio_record_fields(first)
                },
            )
            &&& self.last_polled() == Some(r->Ok_0)
            &&& self.polled_payload() == crate::audio::audio_payload(first)
            &&& self.pending_frame() == pre.pending_frame()
            &&& self.audio_overflowed() == pre.audio_overflowed()
            &&& self.exit_flag() == pre.exit_flag()
            &&& self.size() == pre.size()
            &&& self.active() == pre.active()
        }
    }

    /// Whether `self` is what taking in one engine step's results gives from
    /// `pre`, with `dropped` telling whether audio was dropped for the first time.
    pub open spec fn stepped_from(
        self,
        pre: RuntimeState,
        exit_requested: bool,
        audio: Seq<AudioCommand>,
        frame: ExternalFrame,
        width: u32,
        height: u32,
        dropped: bool,
    ) -> bool {
        let room = MAX_PENDING_AUDIO_COMMANDS - pre.queued_audio().len();
        let kept = if audio.len() <= room {
            audio.len() as int
        } else {
            room
        };
        &&& self.wf()
        &&& self.queued_audio().len() <= MAX_PENDING_AUDIO_COMMANDS
        &&& self.exit_flag() == (pre.exit_flag() || exit_requested)
        &&& self.queued_audio() == pre.queued_audio() + audio.take(kept)
        &&& self.audio_overflowed() == (pre.audio_overflowed() || audio.len() > room)
        &&& dropped == (!pre.audio_overflowed() && audio.len() > room)
        &&& self.pending_frame() matches Some(f) && {
            &&& f.frame == frame.frame
            &&& f.textures == frame.textures
            &&& command_views(f.texture_commands@) == match pre.pending_frame() {
                Some(p) => command_views(p.texture_commands@) + command_views(frame.texture_commands@),
                None => command_views(frame.texture_commands@),
            }
        }
        &&& self.size() == (width, height)
        &&& self.active() == pre.active()
        &&& self.last_polled() == pre.last_polled()
        &&& self.polled_payload() == pre.polled_payload()
    }

    /// A step always leaves a frame waiting, so a runtime whose host holds no
    /// frame can hand one out right after a step.
    pub proof fn lemma_step_leaves_a_frame_waiting(
        self,
        pre: RuntimeState,
        exit_requested: bool,
        audio: Seq<AudioCommand>,
        frame: ExternalFrame,
        width: u32,
        height: u32,
        dropped: bool,
    )
        requires
            self.stepped_from(pre, exit_requested, audio, frame, width, height, dropped),
        ensures
            self.pending_frame() is Some,
            self.active() == pre.active(),
    {
    }

    /// An exit request is never withdrawn: taking in a step, polling audio,
    /// and handing out or taking back frames all keep it.
    pub proof fn lemma_exit_request_is_sticky(
        self,
        pre: RuntimeState,
        exit_requested: bool,
        audio: Seq<AudioCommand>,
        frame: ExternalFrame,
        width: u32,
        height: u32,
        dropped: bool,
        polled: Result<AudioCommandRecord, i32>,
    )
        ensures
            self.stepped_from(pre, exit_requested, audio, frame, width, height, dropped)
                ==> (pre.exit_flag() ==> self.exit_flag()),
            self.polled_from(pre, polled) ==> self.exit_flag() == pre.exit_flag(),
            self.agrees_outside_frames(pre) ==> self.exit_flag() == pre.exit_flag(),
    {
    }

    /// A state that agrees with a well-formed one outside the frames, and
    /// waits for no frame, is well formed.
    pub proof fn lemma_agreeing_without_frame_is_wf(self, other: RuntimeState)
        requires
            other.wf(),
            self.agrees_outside_frames(other),
            self.pending_frame() is None || self.pending_frame() == other.pending_frame(),
        ensures
            self.wf(),
    {
    }

    /// The queue never holds more than its capacity.
    pub closed spec fn wf(&self) -> bool {
        self.audio_commands@.len() <= MAX_PENDING_AUDIO_COMMANDS
    }

    /// Well-formedness is exactly the bound on the audio queue.
    pub proof fn lemma_wf_is_queue_bound(self)
        ensures
            self.wf() <==> self.queued_audio().len() <= MAX_PENDING_AUDIO_COMMANDS,
    {
    }

    /// Whether every texture update of the waiting frame, if there is one,
    /// has rows whose byte size fits the ABI's 32-bit row field.
    pub open spec fn pending_rows_fit(self) -> bool {
        match self.pending_frame() {
            Some(f) => update_rows_fit(command_views(f.texture_commands@)),
            None => true,
        }
    }

    /// Checks `pending_rows_fit`.
    pub fn check_pending_rows_fit(&self) -> (b: bool)
        ensures
            b == self.pending_rows_fit(),
    {
        match &self.pending_frame {
            Some(f) => crate::frame::texture_rows_fit(f.texture_commands.as_slice()),
            None => true,
        }
    }

    /// A fresh runtime of the given virtual size.
    pub fn new(width: u32, height: u32) -> (s: Self)
        ensures
            s.wf(),
            s.pending_frame() is None,
            s.queued_audio().len() == 0,
            !s.audio_overflowed(),
            s.size() == (width, height),
            !s.exit_flag(),
            s.active() is None,
            s.last_polled() is None,
    {
        RuntimeState {
            pending_frame: None,
            audio_commands: VecDeque::new(),
            pending_audio: None,
            audio_queue_overflowed: false,
            width,
            height,
            exit_requested: false,
            active_frame: None,
        }
    }

    /// Records an exit request from the last step; a request is never withdrawn.
    pub fn note_exit(&mut self, requested: bool)
        ensures
            final(self).exit_flag() == (old(self).exit_flag() || requested),
            final(self).pending_frame() == old(self).pending_frame(),
            final(self).queued_audio() == old(self).queued_audio(),
            final(self).audio_overflowed() == old(self).audio_overflowed(),
            final(self).size() == old(self).size(),
            final(self).active() == old(self).active(),
            final(self).last_polled() == old(self).last_polled(),
            final(self).polled_payload() == old(self).polled_payload(),
            old(self).wf() ==> final(self).wf(),
    {
        self.exit_requested = self.exit_requested || requested;
    }

    /// Records the virtual size after a step.
    pub fn set_size(&mut self, width: u32, height: u32)
        ensures
            final(self).size() == (width, height),
            final(self).exit_flag() == old(self).exit_flag(),
            final(self).pending_frame() == old(self).pending_frame(),
            final(self).queued_audio() == old(self).queued_audio(),
            final(self).audio_overflowed() == old(self).audio_overflowed(),
            final(self).active() == old(self).active(),
            final(self).last_polled() == old(self).last_polled(),
            final(self).polled_payload() == old(self).polled_payload(),
            old(self).wf() ==> final(self).wf(),
    {
        self.width = width;
        self.height = height;
    }

    /// The virtual size of the runtime.
    pub fn virtual_size(&self) -> (s: (u32, u32))
        ensures
            s == self.size(),
    {
        (self.width, self.height)
    }

    /// `1` once the engine has asked to exit, else `0`.
    pub fn is_exit_requested(&self) -> (r: i32)
        ensures
            r == (if self.exit_flag() {
                1i32
            } else {
                0i32
            }),
    {
        if self.exit_requested {
            1
        } else {
            0
        }
    }

    /// The capabilities a live runtime offers.
    pub fn capabilities(&self) -> (c: u64)
        ensures
            c == RUNTIME_CAPABILITIES,
    {
        RUNTIME_CAPABILITIES
    }

    /// Queues a step's audio commands in order until the queue is full; the
    /// rest are dropped. Returns whether this call is the first to drop any.
    pub fn queue_audio(&mut self, incoming: Vec<AudioCommand>) -> (newly_overflowed: bool)
        requires
            old(self).wf(),
        ensures
            ({
                let room = MAX_PENDING_AUDIO_COMMANDS - old(self).queued_audio().len();
                let kept = if incoming@.len() <= room {
                    incoming@.len() as int
                } else {
                    room
                };
                &&& final(self).queued_audio() == old(self).queued_audio() + incoming@.take(kept)
                &&& final(self).audio_overflowed() == (old(self).audio_overflowed()
                    || incoming@.len() > room)
                &&& newly_overflowed == (!old(self).audio_overflowed() && incoming@.len() > room)
            }),
            final(self).wf(),
            final(self).exit_flag() == old(self).exit_flag(),
            final(self).pending_frame() == old(self).pending_frame(),
            final(self).size() == old(self).size(),
            final(self).active() == old(self).active(),
            final(self).last_polled() == old(self).last_polled(),
            final(self).polled_payload() == old(self).polled_payload(),
    {
        let ghost start = self.audio_commands@;
        let ghost all = incoming@;
        let ghost room = MAX_PENDING_AUDIO_COMMANDS - start.len();
        let mut newly_overflowed = false;
        for command in it: incoming.into_iter()
            invariant
                it.seq() == all,
                start.len() <= MAX_PENDING_AUDIO_COMMANDS,
                room == MAX_PENDING_AUDIO_COMMANDS - start.len(),
                self.audio_commands@ == start + all.take(
                    if it.index() <= room {
                        it.index() as int
                    } else {
                        room
                    },
                ),
                self.audio_queue_overflowed == (old(self).audio_queue_overflowed || it.index() > room),
                newly_overflowed == (!old(self).audio_queue_overflowed && it.index() > room),
                self.exit_requested == old(self).exit_requested,
                self.pending_frame == old(self).pending_frame,
                self.width == old(self).width,
                self.height == old(self).height,
                self.active_frame == old(self).active_frame,
                self.pending_audio == old(self).pending_audio,
        {
            let ghost index = it.index();
            if self.audio_commands.len() >= MAX_PENDING_AUDIO_COMMANDS {
                // Once the queue is full, every later command is dropped; the
                // first drop is reported once.
                if !self.audio_queue_overflowed {
                    self.audio_queue_overflowed = true;
                    newly_overflowed = true;
                }
            } else {
                self.audio_commands.push_back(command);
                assert(all.take(index + 1) =~= all.take(index as int).push(command));
            }
        }
        proof {
            if all.len() <= room {
                assert(all.take(all.len() as int) =~= all);
            }
        }
        newly_overflowed
    }

    /// Keeps a step's frame for presentation. A frame that was never
    /// presented is replaced, but its texture work is kept, ahead of the new
    /// frame's, so the host still sees every texture operation.
    pub fn stash_frame(&mut self, next: ExternalFrame)
        requires
            old(self).wf(),
        ensures
            final(self).pending_frame() matches Some(f) && {
                &&& f.frame == next.frame
                &&& f.textures == next.textures
                &&& command_views(f.texture_commands@) == match old(self).pending_frame() {
                    Some(p) => command_views(p.texture_commands@) + command_views(
                        next.texture_commands@,
                    ),
                    None => command_views(next.texture_commands@),
                }
            },
            final(self).queued_audio() == old(self).queued_audio(),
            final(self).audio_overflowed() == old(self).audio_overflowed(),
            final(self).exit_flag() == old(self).exit_flag(),
            final(self).size() == old(self).size(),
            final(self).active() == old(self).active(),
            final(self).last_polled() == old(self).last_polled(),
            final(self).polled_payload() == old(self).polled_payload(),
            final(self).wf(),
    {
        let mut next = next;
        let ghost next_commands = next.texture_commands@;
        match self.pending_frame.take() {
            Some(pending) => {
                let mut earlier = pending.texture_commands;
                let ghost before = earlier@;
                earlier.append(&mut next.texture_commands);
                next.texture_commands = earlier;
                assert(command_views(next.texture_commands@) =~= command_views(before)
                    + command_views(next_commands));
            },
            None => {},
        }
        self.pending_frame = Some(next);
    }

    /// Takes in what one engine step produced, in the order the step hands
    /// it over: the exit request, the audio commands, the recorded frame and
    /// the virtual size. Returns whether audio commands were dropped for the
    /// first time.
    pub fn finish_step(
        &mut self,
        exit_requested: bool,
        audio: Vec<AudioCommand>,
        frame: ExternalFrame,
        width: u32,
        height: u32,
    ) -> (newly_overflowed: bool)
        requires
            old(self).wf(),
        ensures
            final(self).stepped_from(
                *old(self),
                exit_requested,
                audio@,
                frame,
                width,
                height,
                newly_overflowed,
            ),
    {
        self.note_exit(exit_requested);
        let newly_overflowed = self.queue_audio(audio);
        self.stash_frame(frame);
        self.set_size(width, height);
        newly_overflowed
    }

    /// Hands the waiting frame to the host together with the runtime's size.
    /// Refused while the host still holds a frame, and when none is waiting.
    pub fn acquire_frame(&mut self) -> (r: Result<(ExternalFrame, u32, u32), i32>)
        ensures
            old(self).active() is Some ==> r == Err::<(ExternalFrame, u32, u32), i32>(
                RFVP_STATUS_BUSY,
            ) && *final(self) == *old(self),
            old(self).active() is None && old(self).pending_frame() is None ==> r == Err::<
                (ExternalFrame, u32, u32),
                i32,
            >(RFVP_STATUS_NO_FRAME) && *final(self) == *old(self),
            old(self).active() is None && old(self).pending_frame() is Some ==> {
                &&& r == Ok::<(ExternalFrame, u32, u32), i32>(
                    (old(self).pending_frame()->0, old(self).size().0, old(self).size().1),
                )
                &&& final(self).pending_frame() is None
                &&& final(self).queued_audio() == old(self).queued_audio()
                &&& final(self).audio_overflowed() == old(self).audio_overflowed()
                &&& final(self).exit_flag() == old(self).exit_flag()
                &&& final(self).size() == old(self).size()
                &&& final(self).active() is None
                &&& final(self).last_polled() == old(self).last_polled()
                &&& final(self).polled_payload() == old(self).polled_payload()
                &&& old(self).wf() ==> final(self).wf()
            },
    {
        if self.active_frame.is_some() {
            return Err(RFVP_STATUS_BUSY);
        }
        match self.pending_frame.take() {
            Some(external) => Ok((external, self.width, self.height)),
            None => Err(RFVP_STATUS_NO_FRAME),
        }
    }

    /// Records that the host now holds the frame with handle `frame`.
    pub fn mark_active(&mut self, frame: u64)
        ensures
            final(self).active() == Some(frame),
            final(self).pending_frame() == old(self).pending_frame(),
            final(self).queued_audio() == old(self).queued_audio(),
            final(self).audio_overflowed() == old(self).audio_overflowed(),
            final(self).exit_flag() == old(self).exit_flag(),
            final(self).size() == old(self).size(),
            final(self).last_polled() == old(self).last_polled(),
            final(self).polled_payload() == old(self).polled_payload(),
            old(self).wf() ==> final(self).wf(),
    {
        self.active_frame = Some(frame);
    }

    /// Records that the host released the frame with handle `frame`; a
    /// release of any other frame changes nothing.
    pub fn release_frame(&mut self, frame: u64)
        ensures
            final(self).active() == (if old(self).active() == Some(frame) {
                None
            } else {
                old(self).active()
            }),
            final(self).pending_frame() == old(self).pending_frame(),
            final(self).queued_audio() == old(self).queued_audio(),
            final(self).audio_overflowed() == old(self).audio_overflowed(),
            final(self).exit_flag() == old(self).exit_flag(),
            final(self).size() == old(self).size(),
            final(self).last_polled() == old(self).last_polled(),
            final(self).polled_payload() == old(self).polled_payload(),
            old(self).wf() ==> final(self).wf(),
    {
        if self.active_frame == Some(frame) {
            self.active_frame = None;
        }
    }

    /// Hands out the oldest queued audio command; its payload stays alive in
    /// this state until the next poll.
    pub fn poll_audio(&mut self) -> (r: Result<AudioCommandRecord, i32>)
        requires
            old(self).wf(),
        ensures
            final(self).wf(),
            final(self).polled_from(*old(self), r),
    {
        if self.audio_commands.len() == 0 {
            return Err(RFVP_STATUS_NO_COMMAND);
        }
        let command = match self.audio_commands.pop_front() {
            Some(c) => c,
            None => return Err(RFVP_STATUS_NO_COMMAND),
        };
        let pending = pending_audio_command(command);
        let record = pending.command;
        self.pending_audio = Some(pending);
        Ok(record)
    }

    /// The payload bytes of the last polled audio command.
    pub closed spec fn polled_payload(&self) -> Seq<u8> {
        match self.pending_audio {
            Some(p) => p.payload@,
            None => Seq::empty(),
        }
    }

    /// The payload of the last polled audio command, for the host to read.
    pub fn polled_audio_payload(&self) -> (p: &[u8])
        ensures
            p@ == self.polled_payload(),
    {
        match &self.pending_audio {
            Some(pending) => pending.payload.as_slice(),
            None => &[],
        }
    }
}

} // verus!
