//! The per-frame protocol as a state machine.
//!
//! The renderer cycles through a fixed number of frame slots. A cycle waits
//! for the slot's fence, acquires a presentable image, records and submits the
//! slot's command buffer (resetting the fence first) and presents. When the
//! surface reports that it no longer matches the swapchain, the cycle is
//! abandoned and the swapchain is rebuilt before the next one.
//!
//! The fence is reset only once an image has been acquired: a cycle abandoned
//! on a stale surface leaves the slot's fence signaled, so the retried cycle's
//! wait on that same slot returns at once instead of waiting for a submission
//! that never happened.
//!
//! `FrameLoop::step` takes what the GPU side reported (an `Event`) and says
//! what to do next (an `Action`). The caller performs the action and reports
//! back; no GPU call is made here.
use vstd::prelude::*;
use crate::extent::{Extent2D, ResolutionScale, scaled_extent, scaled_length};
use crate::layout::{Command, frame_commands, frame_sequence};
use crate::vulkan::{out_of_date, result_out_of_date};

verus! {

/// Number of frame slots that the renderer keeps in flight.
pub const MAX_FRAMES_IN_FLIGHT: usize = 2;

/// Where a cycle stands.
#[derive(Clone, Copy, Debug, PartialEq, Eq, Structural)]
pub enum Stage {
    /// Between cycles: the next `Tick` starts one.
    Idle,
    /// The slot's fence is being waited on.
    Waiting,
    /// A presentable image is being acquired.
    Acquiring,
    /// The frame was submitted and is being presented.
    Presenting,
    /// The surface went stale; the swapchain is being rebuilt.
    Recreating,
    /// A GPU call failed for good; nothing more is done.
    Failed,
}

/// A presentable image handed out by the swapchain.
#[derive(Clone, Copy, Debug, PartialEq, Eq, Structural)]
pub struct AcquiredImage {
    pub image_index: u32,
    /// The image is usable, but the swapchain no longer matches the surface
    /// exactly.
    pub suboptimal: bool,
}

/// What the GPU side reports back.
#[derive(Clone, Copy, Debug)]
pub enum Event {
    /// Time to start a cycle; the time since start, in milliseconds.
    Tick { elapsed_millis: u64 },
    /// The fence of `slot` was observed signaled.
    FenceSignaled { slot: usize },
    /// The result of acquiring an image: the image, or a raw Vulkan error code.
    Acquired { result: Result<AcquiredImage, i32> },
    /// The result of presenting: whether the swapchain is suboptimal, or a
    /// raw Vulkan error code.
    Presented { status: Result<bool, i32> },
    /// Recording or submitting the frame failed with this raw Vulkan code;
    /// nothing was submitted.
    SubmitFailed { code: i32 },
    /// The swapchain was rebuilt for a surface of this extent.
    Recreated { surface: Extent2D },
}

/// What one frame records: a dispatch over the intermediate target and a
/// stretch onto the presentable image.
#[derive(Clone, Copy, Debug, PartialEq, Eq, Structural)]
pub struct FramePlan {
    pub target: Extent2D,
    pub surface: Extent2D,
    pub time_millis: u32,
}

impl FramePlan {
    /// The commands to record for this frame.
    pub fn commands(&self) -> (r: Vec<Command>)
        ensures
            r@ == frame_sequence(self.target, self.surface, self.time_millis),
    {
        frame_commands(self.target, self.surface, self.time_millis)
    }
}

/// What to do next.
#[derive(Clone, Copy, Debug, PartialEq, Eq, Structural)]
pub enum Action {
    /// Block until the fence of `slot` is signaled, then report
    /// `FenceSignaled`.
    WaitFence { slot: usize },
    /// Acquire the next presentable image, signaling the acquire semaphore of
    /// `slot`, and report `Acquired`.
    Acquire { slot: usize },
    /// Reset the fence and command buffer of `slot`, record `frame`'s
    /// commands against image `image_index`, submit them (waiting on the
    /// acquire semaphore, signaling the render-complete semaphore and the
    /// fence), present, and report `Presented`; report `SubmitFailed` when
    /// recording or submitting fails. The slot index moves on once the
    /// present is reported, successful or stale.
    Draw { slot: usize, image_index: u32, frame: FramePlan },
    /// Wait for the device to be idle, discard the swapchain, build a new one
    /// for the surface's current size, and report `Recreated`.
    Recreate,
    /// The cycle is over; wait for the next tick.
    Done,
    /// A GPU call failed with this raw Vulkan code; give up.
    Fail { code: i32 },
    /// The event does not fit the current stage; nothing changed.
    Rejected,
}

/// The state of a `FrameLoop`, as plain values.
pub struct LoopState {
    /// For each slot: whether its fence has been observed signaled since the
    /// slot's last submission. Its length is the number of slots.
    pub observed: Seq<bool>,
    /// The slot of the current or next cycle.
    pub index: usize,
    pub stage: Stage,
    /// Extent of each slot's intermediate target.
    pub target: Extent2D,
    /// Extent of the presentable images.
    pub surface: Extent2D,
    /// Elapsed time of the current cycle, in milliseconds, modulo 2^32.
    pub time_millis: u32,
    /// Whether the last successful acquire or present was suboptimal.
    pub suboptimal: bool,
}

impl LoopState {
    pub open spec fn wf(self) -> bool {
        self.observed.len() > 0 && self.observed.len() <= usize::MAX && self.index
            < self.observed.len()
    }

    pub open spec fn frames(self) -> nat {
        self.observed.len()
    }
}

/// A report that the surface is stale: acquiring or presenting failed with
/// `VK_ERROR_OUT_OF_DATE_KHR`.
pub open spec fn is_stale_report(e: Event) -> bool {
    ||| e matches Event::Acquired { result: Err(code) } && code == result_out_of_date()
    ||| e matches Event::Presented { status: Err(code) } && code == result_out_of_date()
}

/// The state right after construction: no fence observed yet (each is
/// created signaled, so the first wait returns at once), slot zero next.
pub open spec fn initial_state(frames: nat, target: Extent2D, surface: Extent2D) -> LoopState {
    LoopState {
        observed: Seq::new(frames, |i: int| false),
        index: 0,
        stage: Stage::Idle,
        target,
        surface,
        time_millis: 0,
        suboptimal: false,
    }
}

pub open spec fn rejected(s: LoopState) -> (LoopState, Action) {
    (s, Action::Rejected)
}

/// The slot after the current one, in round-robin order.
pub open spec fn next_slot(s: LoopState) -> usize {
    ((s.index + 1) % (s.observed.len() as int)) as usize
}

/// A failed acquire: a stale surface is rebuilt, anything else is fatal.
pub open spec fn after_failure(s: LoopState, code: i32) -> (LoopState, Action) {
    if code == result_out_of_date() {
        (LoopState { stage: Stage::Recreating, ..s }, Action::Recreate)
    } else {
        (LoopState { stage: Stage::Failed, ..s }, Action::Fail { code })
    }
}

/// One step of the protocol: the next state and what to do, given what was
/// reported.
pub open spec fn next(s: LoopState, e: Event) -> (LoopState, Action) {
    match e {
        Event::Tick { elapsed_millis } => {
            if s.stage == Stage::Idle {
                (
                    LoopState {
                        stage: Stage::Waiting,
                        time_millis: (elapsed_millis % 0x1_0000_0000) as u32,
                        ..s
                    },
                    Action::WaitFence { slot: s.index },
                )
            } else {
                rejected(s)
            }
        },
        Event::FenceSignaled { slot } => {
            if s.stage == Stage::Waiting && slot == s.index {
                (
                    LoopState {
                        stage: Stage::Acquiring,
                        observed: s.observed.update(s.index as int, true),
                        ..s
                    },
                    Action::Acquire { slot: s.index },
                )
            } else {
                rejected(s)
            }
        },
        Event::Acquired { result } => {
            if s.stage == Stage::Acquiring {
                match result {
                    Ok(image) => (
                        LoopState {
                            stage: Stage::Presenting,
                            observed: s.observed.update(s.index as int, false),
                            suboptimal: image.suboptimal,
                            ..s
                        },
                        Action::Draw {
                            slot: s.index,
                            image_index: image.image_index,
                            frame: FramePlan {
                                target: s.target,
                                surface: s.surface,
                                time_millis: s.time_millis,
                            },
                        },
                    ),
                    Err(code) => after_failure(s, code),
                }
            } else {
                rejected(s)
            }
        },
        Event::Presented { status } => {
            if s.stage == Stage::Presenting {
                match status {
                    Ok(suboptimal) => (
                        LoopState { stage: Stage::Idle, suboptimal, index: next_slot(s), ..s },
                        Action::Done,
                    ),
                    Err(code) => {
                        if code == result_out_of_date() {
                            (
                                LoopState { stage: Stage::Recreating, index: next_slot(s), ..s },
                                Action::Recreate,
                            )
                        } else {
                            (LoopState { stage: Stage::Failed, ..s }, Action::Fail { code })
                        }
                    },
                }
            } else {
                rejected(s)
            }
        },
        Event::SubmitFailed { code } => {
            if s.stage == Stage::Presenting {
                (LoopState { stage: Stage::Failed, ..s }, Action::Fail { code })
            } else {
                rejected(s)
            }
        },
        Event::Recreated { surface } => {
            if s.stage == Stage::Recreating {
                (
                    LoopState { stage: Stage::Idle, surface, suboptimal: false, ..s },
                    Action::Done,
                )
            } else {
                rejected(s)
            }
        },
    }
}

/// The state and the actions after feeding `events` in order from `s`; the
/// `k`-th action answers the `k`-th event.
pub open spec fn run(s: LoopState, events: Seq<Event>) -> (LoopState, Seq<Action>)
    decreases events.len(),
{
    if events.len() == 0 {
        (s, Seq::empty())
    } else {
        let (mid, actions) = run(s, events.drop_last());
        let (end, a) = next(mid, events.last());
        (end, actions.push(a))
    }
}

/// A copy of `flags` with entry `i` set to `value`.
fn with_flag(flags: &Vec<bool>, i: usize, value: bool) -> (r: Vec<bool>)
    requires
        i < flags@.len(),
    ensures
        r@ == flags@.update(i as int, value),
{
    let mut r: Vec<bool> = Vec::new();
    let mut j: usize = 0;
    while j < flags.len()
        invariant
            j <= flags@.len(),
            i < flags@.len(),
            r@ == flags@.update(i as int, value).take(j as int),
        decreases flags@.len() - j,
    {
        if j == i {
            r.push(value);
        } else {
            r.push(flags[j]);
        }
        j = j + 1;
        assert(r@ =~= flags@.update(i as int, value).take(j as int));
    }
    assert(r@ =~= flags@.update(i as int, value));
    r
}

/// The renderer's frame protocol.
pub struct FrameLoop {
    observed: Vec<bool>,
    index: usize,
    stage: Stage,
    target: Extent2D,
    surface: Extent2D,
    time_millis: u32,
    suboptimal: bool,
}

impl View for FrameLoop {
    type V = LoopState;

    closed spec fn view(&self) -> LoopState {
        LoopState {
            observed: self.observed@,
            index: self.index,
            stage: self.stage,
            target: self.target,
            surface: self.surface,
            time_millis: self.time_millis,
            suboptimal: self.suboptimal,
        }
    }
}

impl FrameLoop {
    #[verifier::type_invariant]
    spec fn well_formed(self) -> bool {
        self.observed@.len() > 0 && self.observed@.len() <= usize::MAX && self.index
            < self.observed@.len()
    }

    /// A loop over `frames` slots for a surface of extent `surface`; each
    /// slot's intermediate target is the surface's extent under `scale`.
    /// `None` when `frames` is zero.
    pub fn new(frames: usize, surface: Extent2D, scale: ResolutionScale) -> (r: Option<FrameLoop>)
        ensures
            r is Some <==> frames > 0,
            r matches Some(l) ==> l@ == initial_state(
                frames as nat,
                Extent2D {
                    width: scaled_length(surface.width, scale) as u32,
                    height: scaled_length(surface.height, scale) as u32,
                },
                surface,
            ),
    {
        if frames == 0 {
            return None;
        }
        let mut observed: Vec<bool> = Vec::new();
        let mut i: usize = 0;
        while i < frames
            invariant
                i <= frames,
                observed@ == Seq::new(i as nat, |j: int| false),
            decreases frames - i,
        {
            observed.push(false);
            i = i + 1;
            assert(observed@ =~= Seq::new(i as nat, |j: int| false));
        }
        let target = scaled_extent(surface, scale);
        let r = FrameLoop {
            observed,
            index: 0,
            stage: Stage::Idle,
            target,
            surface,
            time_millis: 0,
            suboptimal: false,
        };
        assert(r@ =~= initial_state(frames as nat, target, surface));
        Some(r)
    }

    /// Number of frame slots.
    pub fn frames_in_flight(&self) -> (r: usize)
        ensures
            r == self@.frames(),
            r > 0,
    {
        proof {
            use_type_invariant(self);
        }
        self.observed.len()
    }

    /// The slot of the current or next cycle.
    pub fn frame_index(&self) -> (r: usize)
        ensures
            r == self@.index,
            r < self@.frames(),
    {
        proof {
            use_type_invariant(self);
        }
        self.index
    }

    pub fn stage(&self) -> (r: Stage)
        ensures
            r == self@.stage,
    {
        self.stage
    }

    /// Whether the surface was reported stale and the swapchain still has to
    /// be rebuilt.
    pub fn is_stale(&self) -> (r: bool)
        ensures
            r == (self@.stage == Stage::Recreating),
    {
        self.stage == Stage::Recreating
    }

    /// Whether the last successful acquire or present was suboptimal.
    pub fn is_suboptimal(&self) -> (r: bool)
        ensures
            r == self@.suboptimal,
    {
        self.suboptimal
    }

    /// Extent of each slot's intermediate target.
    pub fn target(&self) -> (r: Extent2D)
        ensures
            r == self@.target,
    {
        self.target
    }

    /// Extent of the presentable images.
    pub fn surface(&self) -> (r: Extent2D)
        ensures
            r == self@.surface,
    {
        self.surface
    }

    fn fail_or_recreate(&mut self, code: i32) -> (r: Action)
        ensures
            (final(self)@, r) == after_failure(old(self)@, code),
    {
        proof {
            use_type_invariant(&*self);
        }
        if code == out_of_date() {
            self.stage = Stage::Recreating;
            Action::Recreate
        } else {
            self.stage = Stage::Failed;
            Action::Fail { code }
        }
    }

    /// Takes what the GPU side reported and says what to do next.
    pub fn step(&mut self, event: Event) -> (r: Action)
        ensures
            old(self)@.wf(),
            final(self)@.wf(),
            (final(self)@, r) == next(old(self)@, event),
    {
        proof {
            use_type_invariant(&*self);
        }
        match event {
            Event::Tick { elapsed_millis } => {
                if self.stage == Stage::Idle {
                    self.stage = Stage::Waiting;
                    self.time_millis = (elapsed_millis % 0x1_0000_0000) as u32;
                    Action::WaitFence { slot: self.index }
                } else {
                    Action::Rejected
                }
            },
            Event::FenceSignaled { slot } => {
                if self.stage == Stage::Waiting && slot == self.index {
                    self.stage = Stage::Acquiring;
                    self.observed = with_flag(&self.observed, self.index, true);
                    Action::Acquire { slot: self.index }
                } else {
                    Action::Rejected
                }
            },
            Event::Acquired { result } => {
                if self.stage == Stage::Acquiring {
                    match result {
                        Ok(image) => {
                            let slot = self.index;
                            self.stage = Stage::Presenting;
                            self.observed = with_flag(&self.observed, slot, false);
                            self.suboptimal = image.suboptimal;
                            Action::Draw {
                                slot,
                                image_index: image.image_index,
                                frame: FramePlan {
                                    target: self.target,
                                    surface: self.surface,
                                    time_millis: self.time_millis,
                                },
                            }
                        },
                        Err(code) => self.fail_or_recreate(code),
                    }
                } else {
                    Action::Rejected
                }
            },
            Event::Presented { status } => {
                if self.stage == Stage::Presenting {
                    match status {
                        Ok(suboptimal) => {
                            self.stage = Stage::Idle;
                            self.suboptimal = suboptimal;
                            self.index = (self.index + 1) % self.observed.len();
                            Action::Done
                        },
                        Err(code) => {
                            if code == out_of_date() {
                                self.index = (self.index + 1) % self.observed.len();
                            }
                            self.fail_or_recreate(code)
                        },
                    }
                } else {
                    Action::Rejected
                }
            },
            Event::SubmitFailed { code } => {
                if self.stage == Stage::Presenting {
                    self.stage = Stage::Failed;
                    Action::Fail { code }
                } else {
                    Action::Rejected
                }
            },
            Event::Recreated { surface } => {
                if self.stage == Stage::Recreating {
                    self.stage = Stage::Idle;
                    self.surface = surface;
                    self.suboptimal = false;
                    Action::Done
                } else {
                    Action::Rejected
                }
            },
        }
    }
}

} // verus!
