//! Submission cycles: the steps of one submission and the order they have to
//! keep.
//!
//! A cycle is a list of [`Step`]s that a host performs one after the other on
//! its device. [`compute_plan`] lists the steps of a headless dispatch with a
//! readback, [`frame_plan`] those of one presented frame. A [`Tracker`] holds
//! what the order of steps depends on: whether a recording scope is open,
//! how far the frame's image has come, and whether the staging buffer is
//! mapped. It admits a step only where the step may follow what came before.
//! A list is [`complete`] when a tracker admits all of it and is idle again
//! at its end; both plans are.

use vstd::prelude::*;
use crate::workgroups::{groups_needed, workgroup_count};

verus! {

/// One thing a host does on its device.
#[derive(Clone, Copy, Debug, PartialEq, Eq, Structural)]
pub enum Step {
    /// Acquire the next presentable image of the surface. It alone can fail
    /// without ending the program; the rest of the frame is then dropped.
    Acquire,
    /// Build a view over the acquired image.
    CreateView,
    /// Open a command recording scope.
    OpenEncoder,
    /// Record a compute scope: bind the compute pipeline and its bindings,
    /// dispatch `workgroups` workgroups, close the scope.
    ComputePass { workgroups: u32 },
    /// Record a render scope on the image's view: clear to the current
    /// colour, bind the render pipeline and the vertex buffer, draw
    /// `vertices` vertices of `instances` instances, close the scope.
    RenderPass { vertices: u32, instances: u32 },
    /// Record a copy of the first `bytes` bytes of the storage buffer into
    /// the staging buffer.
    CopyToStaging { bytes: u64 },
    /// Close the recording scope and hand what it recorded to the queue.
    Submit,
    /// Present the acquired image.
    Present,
    /// Ask for the staging buffer to be mapped for reading.
    RequestMap,
    /// Block until the device has resolved the map request.
    Wait,
    /// Read `bytes` bytes of the mapped staging buffer.
    Read { bytes: u64 },
    /// Release the mapping of the staging buffer.
    Unmap,
}

/// How far the image of the frame has come.
#[derive(Clone, Copy, Debug, PartialEq, Eq, Structural)]
pub enum Image {
    /// No image is held.
    Absent,
    Acquired,
    /// A view over the image exists.
    Viewed,
    /// A render scope on the view has been recorded.
    Drawn,
    /// The recorded render scope has been submitted.
    Queued,
}

/// Where the staging buffer stands between device and host.
#[derive(Clone, Copy, Debug, PartialEq, Eq, Structural)]
pub enum Staging {
    /// Unmapped, and nothing new to read.
    Idle,
    /// Unmapped; a copy into it has been submitted.
    Filled,
    /// A map request is pending.
    Requested,
    /// Mapped for the host to read.
    Mapped,
}

/// What the order of steps depends on.
#[derive(Clone, Copy, Debug, PartialEq, Eq, Structural)]
pub struct Tracker {
    /// A recording scope is open.
    pub recording: bool,
    /// The open recording scope holds a copy into the staging buffer.
    pub copy_recorded: bool,
    pub image: Image,
    pub staging: Staging,
}

impl Tracker {
    /// Nothing is open, held or mapped.
    pub open spec fn idle() -> Tracker {
        Tracker {
            recording: false,
            copy_recorded: false,
            image: Image::Absent,
            staging: Staging::Idle,
        }
    }

    /// The device may write the staging buffer: it is neither mapped nor
    /// about to be.
    pub open spec fn staging_unmapped(self) -> bool {
        self.staging == Staging::Idle || self.staging == Staging::Filled
    }

    /// A recorded copy belongs to an open recording scope.
    pub open spec fn wf(self) -> bool {
        self.copy_recorded ==> self.recording
    }

    /// The step may come next.
    pub open spec fn admits(self, step: Step) -> bool {
        match step {
            Step::Acquire => self.image == Image::Absent,
            Step::CreateView => self.image == Image::Acquired,
            Step::OpenEncoder => !self.recording,
            Step::ComputePass { .. } => self.recording,
            Step::RenderPass { .. } => self.recording && self.image == Image::Viewed,
            Step::CopyToStaging { .. } => self.recording && self.staging_unmapped(),
            Step::Submit => self.recording && (self.copy_recorded ==> self.staging_unmapped()),
            Step::Present => self.image == Image::Queued,
            Step::RequestMap => self.staging == Staging::Filled,
            Step::Wait => self.staging == Staging::Requested,
            Step::Read { .. } => self.staging == Staging::Mapped,
            Step::Unmap => self.staging == Staging::Mapped,
        }
    }

    /// The tracker once the step has been performed.
    pub open spec fn after(self, step: Step) -> Tracker {
        match step {
            Step::Acquire => Tracker { image: Image::Acquired, ..self },
            Step::CreateView => Tracker { image: Image::Viewed, ..self },
            Step::OpenEncoder => Tracker { recording: true, copy_recorded: false, ..self },
            Step::ComputePass { .. } => self,
            Step::RenderPass { .. } => Tracker { image: Image::Drawn, ..self },
            Step::CopyToStaging { .. } => Tracker { copy_recorded: true, ..self },
            Step::Submit => Tracker {
                recording: false,
                copy_recorded: false,
                image: if self.image == Image::Drawn {
                    Image::Queued
                } else {
                    self.image
                },
                staging: if self.copy_recorded {
                    Staging::Filled
                } else {
                    self.staging
                },
            },
            Step::Present => Tracker { image: Image::Absent, ..self },
            Step::RequestMap => Tracker { staging: Staging::Requested, ..self },
            Step::Wait => Tracker { staging: Staging::Mapped, ..self },
            Step::Read { .. } => self,
            Step::Unmap => Tracker { staging: Staging::Idle, ..self },
        }
    }

    /// The tracker after all of `steps`, performed in order from this one, or
    /// `None` where one of them is not admitted when its turn comes.
    pub open spec fn run(self, steps: Seq<Step>) -> Option<Tracker>
        decreases steps.len(),
    {
        if steps.len() == 0 {
            Some(self)
        } else {
            match self.run(steps.drop_last()) {
                Some(before) => if before.admits(steps.last()) {
                    Some(before.after(steps.last()))
                } else {
                    None
                },
                None => None,
            }
        }
    }

    /// A tracker with nothing open, held or mapped.
    pub fn new() -> (tracker: Tracker)
        ensures
            tracker == Tracker::idle(),
            tracker.wf(),
    {
        Tracker {
            recording: false,
            copy_recorded: false,
            image: Image::Absent,
            staging: Staging::Idle,
        }
    }

    pub fn is_idle(&self) -> (yes: bool)
        ensures
            yes == (*self == Tracker::idle()),
    {
        !self.recording && !self.copy_recorded && self.image == Image::Absent && self.staging
            == Staging::Idle
    }

    /// Takes the step if it may come next. Where it may not, the result is
    /// `false` and the tracker stays as it was.
    pub fn apply(&mut self, step: Step) -> (admitted: bool)
        ensures
            admitted == old(self).admits(step),
            *final(self) == if admitted {
                old(self).after(step)
            } else {
                *old(self)
            },
            old(self).wf() ==> final(self).wf(),
    {
        let unmapped = self.staging == Staging::Idle || self.staging == Staging::Filled;
        match step {
            Step::Acquire => {
                if self.image == Image::Absent {
                    self.image = Image::Acquired;
                    true
                } else {
                    false
                }
            },
            Step::CreateView => {
                if self.image == Image::Acquired {
                    self.image = Image::Viewed;
                    true
                } else {
                    false
                }
            },
            Step::OpenEncoder => {
                if !self.recording {
                    self.recording = true;
                    self.copy_recorded = false;
                    true
                } else {
                    false
                }
            },
            Step::ComputePass { .. } => self.recording,
            Step::RenderPass { .. } => {
                if self.recording && self.image == Image::Viewed {
                    self.image = Image::Drawn;
                    true
                } else {
                    false
                }
            },
            Step::CopyToStaging { .. } => {
                if self.recording && unmapped {
                    self.copy_recorded = true;
                    true
                } else {
                    false
                }
            },
            Step::Submit => {
                if self.recording && (!self.copy_recorded || unmapped) {
                    if self.copy_recorded {
                        self.staging = Staging::Filled;
                    }
                    if self.image == Image::Drawn {
                        self.image = Image::Queued;
                    }
                    self.recording = false;
                    self.copy_recorded = false;
                    true
                } else {
                    false
                }
            },
            Step::Present => {
                if self.image == Image::Queued {
                    self.image = Image::Absent;
                    true
                } else {
                    false
                }
            },
            Step::RequestMap => {
                if self.staging == Staging::Filled {
                    self.staging = Staging::Requested;
                    true
                } else {
                    false
                }
            },
            Step::Wait => {
                if self.staging == Staging::Requested {
                    self.staging = Staging::Mapped;
                    true
                } else {
                    false
                }
            },
            Step::Read { .. } => self.staging == Staging::Mapped,
            Step::Unmap => {
                if self.staging == Staging::Mapped {
                    self.staging = Staging::Idle;
                    true
                } else {
                    false
                }
            },
        }
    }
}

/// The steps keep the order and leave nothing behind: performed from an idle
/// tracker each is admitted in its turn, and the tracker is idle again after
/// the last.
pub open spec fn complete(steps: Seq<Step>) -> bool {
    Tracker::idle().run(steps) == Some(Tracker::idle())
}

/// Whether the steps form a complete cycle.
pub fn is_complete(steps: &Vec<Step>) -> (yes: bool)
    ensures
        yes == complete(steps@),
{
    let mut tracker = Tracker::new();
    let mut i: usize = 0;
    while i < steps.len()
        invariant
            i <= steps.len(),
            Tracker::idle().run(steps@.take(i as int)) == Some(tracker),
        decreases steps.len() - i,
    {
        let admitted = tracker.apply(steps[i]);
        proof {
            let prefix = steps@.take(i + 1);
            assert(prefix.drop_last() =~= steps@.take(i as int));
            assert(prefix.last() == steps@[i as int]);
            if !admitted {
                lemma_refusal_is_final(Tracker::idle(), steps@, i + 1);
            }
        }
        if !admitted {
            return false;
        }
        i = i + 1;
    }
    proof {
        assert(steps@.take(steps@.len() as int) =~= steps@);
    }
    tracker.is_idle()
}

/// Once a step has been refused, no continuation is accepted: where a prefix
/// of `steps` does not run, `steps` does not run.
pub proof fn lemma_refusal_is_final(start: Tracker, steps: Seq<Step>, len: int)
    requires
        0 <= len <= steps.len(),
        start.run(steps.take(len)) is None,
    ensures
        start.run(steps) is None,
    decreases steps.len(),
{
    if len < steps.len() {
        assert(steps.drop_last().take(len) =~= steps.take(len));
        lemma_refusal_is_final(start, steps.drop_last(), len);
    } else {
        assert(steps.take(len) =~= steps);
    }
}

/// The steps of a headless dispatch of `workgroups` workgroups over a buffer
/// of `bytes` bytes, with the readback of that buffer.
pub open spec fn compute_steps(workgroups: u32, bytes: u64) -> Seq<Step> {
    seq![
        Step::OpenEncoder,
        Step::ComputePass { workgroups },
        Step::CopyToStaging { bytes },
        Step::Submit,
        Step::RequestMap,
        Step::Wait,
        Step::Read { bytes },
        Step::Unmap,
    ]
}

/// The steps of one presented frame that draws `vertices` vertices once,
/// after a dispatch of `workgroups` workgroups where one is asked for. The
/// dispatch comes first and shares the frame's recording scope.
pub open spec fn frame_steps(vertices: u32, workgroups: Option<u32>) -> Seq<Step> {
    let draw = Step::RenderPass { vertices, instances: 1 };
    match workgroups {
        Some(workgroups) => seq![
            Step::Acquire,
            Step::CreateView,
            Step::OpenEncoder,
            Step::ComputePass { workgroups },
            draw,
            Step::Submit,
            Step::Present,
        ],
        None => seq![
            Step::Acquire,
            Step::CreateView,
            Step::OpenEncoder,
            draw,
            Step::Submit,
            Step::Present,
        ],
    }
}

/// Plans a headless dispatch over a buffer of `bytes` one-byte elements with
/// workgroups of `local_size` invocations, and the readback of the whole
/// buffer.
///
/// The plan dispatches the least number of workgroups that covers the buffer,
/// and it is a complete cycle. There is no plan where there is no such number:
/// when `local_size` is zero, or when more than `u32::MAX` workgroups would be
/// needed.
pub fn compute_plan(bytes: u64, local_size: u32) -> (plan: Option<Vec<Step>>)
    ensures
        plan is Some <==> local_size > 0 && groups_needed(bytes as nat, local_size as nat)
            <= u32::MAX,
        plan matches Some(steps) ==> steps@ == compute_steps(
            groups_needed(bytes as nat, local_size as nat) as u32,
            bytes,
        ) && complete(steps@),
{
    match workgroup_count(bytes, local_size) {
        Some(workgroups) => {
            let mut steps: Vec<Step> = Vec::new();
            steps.push(Step::OpenEncoder);
            steps.push(Step::ComputePass { workgroups });
            steps.push(Step::CopyToStaging { bytes });
            steps.push(Step::Submit);
            steps.push(Step::RequestMap);
            steps.push(Step::Wait);
            steps.push(Step::Read { bytes });
            steps.push(Step::Unmap);
            proof {
                assert(steps@ =~= compute_steps(workgroups, bytes));
                lemma_compute_steps_complete(workgroups, bytes);
            }
            Some(steps)
        },
        None => None,
    }
}

/// Plans one presented frame that draws `vertices` vertices once, after a
/// dispatch of `workgroups` workgroups where one is asked for. The plan is a
/// complete cycle.
pub fn frame_plan(vertices: u32, workgroups: Option<u32>) -> (steps: Vec<Step>)
    ensures
        steps@ == frame_steps(vertices, workgroups),
        complete(steps@),
{
    let mut steps: Vec<Step> = Vec::new();
    steps.push(Step::Acquire);
    steps.push(Step::CreateView);
    steps.push(Step::OpenEncoder);
    match workgroups {
        Some(workgroups) => {
            steps.push(Step::ComputePass { workgroups });
        },
        None => {},
    }
    steps.push(Step::RenderPass { vertices, instances: 1 });
    steps.push(Step::Submit);
    steps.push(Step::Present);
    proof {
        assert(steps@ =~= frame_steps(vertices, workgroups));
        lemma_frame_steps_complete(vertices, workgroups);
    }
    steps
}

/// The tracker after the first `count` of `steps`, performed from an idle
/// tracker.
pub open spec fn reached(steps: Seq<Step>, count: int) -> Option<Tracker> {
    Tracker::idle().run(steps.take(count))
}

/// Running one step further: where the first `count` steps lead to `before`
/// and `before` admits the next step, the first `count + 1` lead to the
/// tracker after it.
pub proof fn lemma_run_one_more(steps: Seq<Step>, count: int, before: Tracker)
    requires
        0 <= count < steps.len(),
        reached(steps, count) == Some(before),
        before.admits(steps[count]),
    ensures
        reached(steps, count + 1) == Some(before.after(steps[count])),
{
    let longer = steps.take(count + 1);
    assert(longer.drop_last() =~= steps.take(count));
    assert(longer.last() == steps[count]);
}

/// A headless dispatch with its readback is a complete cycle, whatever the
/// number of workgroups and of bytes.
pub proof fn lemma_compute_steps_complete(workgroups: u32, bytes: u64)
    ensures
        complete(compute_steps(workgroups, bytes)),
{
    let steps = compute_steps(workgroups, bytes);
    let t0 = Tracker::idle();
    assert(steps.take(0) =~= Seq::<Step>::empty());
    assert(reached(steps, 0) == Some(t0));
    let t1 = t0.after(steps[0]);
    lemma_run_one_more(steps, 0, t0);
    let t2 = t1.after(steps[1]);
    lemma_run_one_more(steps, 1, t1);
    let t3 = t2.after(steps[2]);
    lemma_run_one_more(steps, 2, t2);
    let t4 = t3.after(steps[3]);
    lemma_run_one_more(steps, 3, t3);
    let t5 = t4.after(steps[4]);
    lemma_run_one_more(steps, 4, t4);
    let t6 = t5.after(steps[5]);
    lemma_run_one_more(steps, 5, t5);
    let t7 = t6.after(steps[6]);
    lemma_run_one_more(steps, 6, t6);
    lemma_run_one_more(steps, 7, t7);
    assert(steps.take(8) =~= steps);
}

/// One presented frame is a complete cycle, with or without a dispatch before
/// the draw.
pub proof fn lemma_frame_steps_complete(vertices: u32, workgroups: Option<u32>)
    ensures
        complete(frame_steps(vertices, workgroups)),
{
    let steps = frame_steps(vertices, workgroups);
    let t0 = Tracker::idle();
    assert(steps.take(0) =~= Seq::<Step>::empty());
    assert(reached(steps, 0) == Some(t0));
    let t1 = t0.after(steps[0]);
    lemma_run_one_more(steps, 0, t0);
    let t2 = t1.after(steps[1]);
    lemma_run_one_more(steps, 1, t1);
    let t3 = t2.after(steps[2]);
    lemma_run_one_more(steps, 2, t2);
    let t4 = t3.after(steps[3]);
    lemma_run_one_more(steps, 3, t3);
    let t5 = t4.after(steps[4]);
    lemma_run_one_more(steps, 4, t4);
    let t6 = t5.after(steps[5]);
    lemma_run_one_more(steps, 5, t5);
    if workgroups is Some {
        lemma_run_one_more(steps, 6, t6);
        assert(steps.take(7) =~= steps);
    } else {
        assert(steps.take(6) =~= steps);
    }
}

/// A headless cycle has a single point at which the host blocks: its one
/// wait, after the map request and before the read.
pub proof fn lemma_compute_waits_once(workgroups: u32, bytes: u64, at: int)
    requires
        0 <= at < compute_steps(workgroups, bytes).len(),
    ensures
        compute_steps(workgroups, bytes)[at] == Step::Wait <==> at == 5,
        compute_steps(workgroups, bytes)[4] == Step::RequestMap,
        compute_steps(workgroups, bytes)[6] == (Step::Read { bytes }),
{
}

/// A frame never stalls the host: none of its steps waits for the device, and
/// none maps or reads the staging buffer.
pub proof fn lemma_frame_never_blocks(vertices: u32, workgroups: Option<u32>, at: int)
    requires
        0 <= at < frame_steps(vertices, workgroups).len(),
    ensures
        frame_steps(vertices, workgroups)[at] != Step::Wait,
        frame_steps(vertices, workgroups)[at] != Step::RequestMap,
        frame_steps(vertices, workgroups)[at] != Step::Unmap,
        !(frame_steps(vertices, workgroups)[at] is Read),
        !(frame_steps(vertices, workgroups)[at] is CopyToStaging),
{
}

} // verus!
