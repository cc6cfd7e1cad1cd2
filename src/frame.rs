use vstd::prelude::*;

verus! {

/// Number of frame slots that may be in flight at once.
pub const MAX_FRAMES_IN_FLIGHT: usize = 2;

/// The frame slot that follows `frame`.
pub open spec fn next_slot(frame: int) -> int {
    (frame + 1) % (MAX_FRAMES_IN_FLIGHT as int)
}

/// Where the frame loop stands: which outcome it waits for.
#[derive(Clone, Copy, Debug, PartialEq, Eq, Structural)]
pub enum Stage {
    /// Between frames.
    Idle,
    /// Waiting for the in-flight fence of the current slot.
    AwaitFence,
    /// Waiting for the next swapchain image.
    AwaitImage,
    /// Waiting for the fence of another slot that last used the acquired
    /// image and may not be signaled yet.
    AwaitImageFence,
    /// Waiting for the image's command buffers to be recorded.
    AwaitRecord,
    /// Waiting for the submission to be made.
    AwaitSubmit,
    /// Waiting for the presentation result.
    AwaitPresent,
    /// Waiting for the swapchain and its dependents to be rebuilt.
    AwaitResize,
    /// A fatal error ended the loop.
    Stopped,
}

/// What presenting an image reported.
#[derive(Clone, Copy, Debug, PartialEq, Eq, Structural)]
pub enum PresentOutcome {
    Optimal,
    Suboptimal,
    OutOfDate,
    Failed,
}

/// What the surrounding loop reports to the frame loop.
#[derive(Clone, Copy, Debug, PartialEq, Eq, Structural)]
pub enum FrameEvent {
    /// The loop asks for a frame.
    Tick,
    /// The window was resized to the given pixel size.
    Resized { width: u32, height: u32 },
    /// The fence that the last action waited on is signaled.
    FenceSignaled,
    /// The swapchain handed out the image with this index.
    ImageAcquired(usize),
    /// Acquiring reported the swapchain out of date.
    AcquireOutOfDate,
    /// The command buffers of the image are recorded.
    Recorded,
    /// The submission was made.
    Submitted,
    /// Presentation returned this outcome.
    Presented(PresentOutcome),
    /// The swapchain was rebuilt; it now has this many images.
    Recreated(usize),
    /// The device reported an error that no transition recovers from.
    Failed,
}

/// What the frame loop asks the surrounding loop to do next.
#[derive(Clone, Copy, Debug, PartialEq, Eq, Structural)]
pub enum FrameAction {
    /// Nothing to do until the next event.
    Idle,
    /// Wait, without timeout, for the in-flight fence of this slot.
    WaitFence(usize),
    /// Acquire the next image, signaling the image-available semaphore of this slot.
    AcquireImage(usize),
    /// Reset the command pool of this image and record its command buffers.
    Record(usize),
    /// Reset the slot's fence, then submit the image's commands, waiting on the
    /// slot's image-available semaphore and signaling its render-finished
    /// semaphore and fence.
    Submit { slot: usize, image: usize },
    /// Present the image, waiting on the slot's render-finished semaphore.
    Present { slot: usize, image: usize },
    /// Wait for the device to idle, then rebuild the swapchain and everything
    /// that depends on it.
    RecreateSwapchain,
    /// The frame is complete.
    FrameDone,
    /// Stop rendering: the error is fatal.
    Fatal,
}

/// The state of the frame loop as a mathematical value.
pub ghost struct FrameView {
    pub frame: int,
    pub image: int,
    pub waiting_for: int,
    pub stage: Stage,
    /// Per slot: its fence was submitted and no wait has seen it signaled since.
    pub pending: Seq<bool>,
    /// Per swapchain image: the slot whose fence guards its last submission.
    pub in_flight: Seq<Option<usize>>,
    pub resized: bool,
    pub minimized: bool,
    /// The rebuild that is awaited follows a submitted frame.
    pub advance: bool,
}

/// Per-frame fence and image bookkeeping, driven one event at a time.
pub struct FrameLoop {
    frame: usize,
    image: usize,
    waiting_for: usize,
    stage: Stage,
    fence_pending: Vec<bool>,
    images_in_flight: Vec<Option<usize>>,
    resized: bool,
    minimized: bool,
    advance: bool,
}

impl View for FrameLoop {
    type V = FrameView;

    closed spec fn view(&self) -> FrameView {
        FrameView {
            frame: self.frame as int,
            image: self.image as int,
            waiting_for: self.waiting_for as int,
            stage: self.stage,
            pending: self.fence_pending@,
            in_flight: self.images_in_flight@,
            resized: self.resized,
            minimized: self.minimized,
            advance: self.advance,
        }
    }
}

/// The bookkeeping is consistent: slots are in range, and the fence of the
/// current slot is known signaled from the fence wait up to the submission.
pub open spec fn frame_wf(s: FrameView) -> bool {
    &&& 0 <= s.frame < MAX_FRAMES_IN_FLIGHT
    &&& s.pending.len() == MAX_FRAMES_IN_FLIGHT
    &&& forall|i: int|
        0 <= i < s.in_flight.len() ==> match #[trigger] s.in_flight[i] {
            Some(slot) => slot < MAX_FRAMES_IN_FLIGHT,
            None => true,
        }
    &&& (s.stage == Stage::AwaitImage || s.stage == Stage::AwaitImageFence || s.stage
        == Stage::AwaitRecord) ==> !s.pending[s.frame]
    &&& (s.stage == Stage::AwaitImageFence || s.stage == Stage::AwaitRecord || s.stage
        == Stage::AwaitSubmit || s.stage == Stage::AwaitPresent) ==> 0 <= s.image
        < s.in_flight.len()
    &&& s.stage == Stage::AwaitImageFence ==> 0 <= s.waiting_for < MAX_FRAMES_IN_FLIGHT
        && s.waiting_for != s.frame
}

/// A state that stops on a fatal error.
pub open spec fn stop(s: FrameView) -> (FrameView, FrameAction) {
    (FrameView { stage: Stage::Stopped, ..s }, FrameAction::Fatal)
}

/// The next state and action when `e` arrives in state `s`.
pub open spec fn step_spec(s: FrameView, e: FrameEvent) -> (FrameView, FrameAction) {
    match e {
        FrameEvent::Resized { width, height } => {
            if width == 0 || height == 0 {
                (FrameView { minimized: true, ..s }, FrameAction::Idle)
            } else {
                (FrameView { minimized: false, resized: true, ..s }, FrameAction::Idle)
            }
        },
        FrameEvent::Failed => stop(s),
        _ => match s.stage {
            Stage::Idle => match e {
                FrameEvent::Tick => if s.minimized {
                    (s, FrameAction::Idle)
                } else {
                    (
                        FrameView { stage: Stage::AwaitFence, ..s },
                        FrameAction::WaitFence(s.frame as usize),
                    )
                },
                _ => stop(s),
            },
            Stage::AwaitFence => match e {
                FrameEvent::FenceSignaled => (
                    FrameView {
                        stage: Stage::AwaitImage,
                        pending: s.pending.update(s.frame, false),
                        ..s
                    },
                    FrameAction::AcquireImage(s.frame as usize),
                ),
                _ => stop(s),
            },
            Stage::AwaitImage => match e {
                FrameEvent::ImageAcquired(i) => if i >= s.in_flight.len() {
                    stop(s)
                } else {
                    match s.in_flight[i as int] {
                        Some(other) => if other as int != s.frame && s.pending[other as int] {
                            (
                                FrameView {
                                    stage: Stage::AwaitImageFence,
                                    image: i as int,
                                    waiting_for: other as int,
                                    ..s
                                },
                                FrameAction::WaitFence(other),
                            )
                        } else {
                            (
                                FrameView {
                                    stage: Stage::AwaitRecord,
                                    image: i as int,
                                    in_flight: s.in_flight.update(i as int, Some(s.frame as usize)),
                                    ..s
                                },
                                FrameAction::Record(i),
                            )
                        },
                        None => (
                            FrameView {
                                stage: Stage::AwaitRecord,
                                image: i as int,
                                in_flight: s.in_flight.update(i as int, Some(s.frame as usize)),
                                ..s
                            },
                            FrameAction::Record(i),
                        ),
                    }
                },
                FrameEvent::AcquireOutOfDate => (
                    FrameView { stage: Stage::AwaitResize, advance: false, ..s },
                    FrameAction::RecreateSwapchain,
                ),
                _ => stop(s),
            },
            Stage::AwaitImageFence => match e {
                FrameEvent::FenceSignaled => (
                    FrameView {
                        stage: Stage::AwaitRecord,
                        pending: s.pending.update(s.waiting_for, false),
                        in_flight: s.in_flight.update(s.image, Some(s.frame as usize)),
                        ..s
                    },
                    FrameAction::Record(s.image as usize),
                ),
                _ => stop(s),
            },
            Stage::AwaitRecord => match e {
                FrameEvent::Recorded => (
                    FrameView {
                        stage: Stage::AwaitSubmit,
                        pending: s.pending.update(s.frame, true),
                        ..s
                    },
                    FrameAction::Submit { slot: s.frame as usize, image: s.image as usize },
                ),
                _ => stop(s),
            },
            Stage::AwaitSubmit => match e {
                FrameEvent::Submitted => (
                    FrameView { stage: Stage::AwaitPresent, ..s },
                    FrameAction::Present { slot: s.frame as usize, image: s.image as usize },
                ),
                _ => stop(s),
            },
            Stage::AwaitPresent => match e {
                FrameEvent::Presented(outcome) => if s.resized || outcome == PresentOutcome::Suboptimal
                    || outcome == PresentOutcome::OutOfDate {
                    (
                        FrameView {
                            stage: Stage::AwaitResize,
                            resized: false,
                            advance: true,
                            ..s
                        },
                        FrameAction::RecreateSwapchain,
                    )
                } else if outcome == PresentOutcome::Failed {
                    stop(s)
                } else {
                    (
                        FrameView { stage: Stage::Idle, frame: next_slot(s.frame), ..s },
                        FrameAction::FrameDone,
                    )
                },
                _ => stop(s),
            },
            Stage::AwaitResize => match e {
                FrameEvent::Recreated(count) => (
                    FrameView {
                        stage: Stage::Idle,
                        frame: if s.advance {
                            next_slot(s.frame)
                        } else {
                            s.frame
                        },
                        pending: Seq::new(MAX_FRAMES_IN_FLIGHT as nat, |i: int| false),
                        in_flight: Seq::new(count as nat, |i: int| None),
                        ..s
                    },
                    FrameAction::FrameDone,
                ),
                _ => stop(s),
            },
            Stage::Stopped => stop(s),
        },
    }
}

/// One step from a consistent state keeps it consistent, and a submission it
/// asks for uses a slot whose fence is signaled.
pub proof fn lemma_step_wf(s: FrameView, e: FrameEvent)
    requires
        frame_wf(s),
    ensures
        frame_wf(step_spec(s, e).0),
        match step_spec(s, e).1 {
            FrameAction::Submit { slot, image } => slot as int == s.frame && !s.pending[slot as int],
            _ => true,
        },
{
    let t = step_spec(s, e).0;
    assert forall|i: int| 0 <= i < t.in_flight.len() implies match #[trigger] t.in_flight[i] {
        Some(slot) => slot < MAX_FRAMES_IN_FLIGHT,
        None => true,
    } by {
        if t.in_flight != s.in_flight && e is ImageAcquired {
            assert(t.in_flight[i] == s.in_flight[i] || t.in_flight[i] == Some(s.frame as usize));
        }
    }
}

/// Every submission along the run of `events` from `s` asks for a slot whose
/// fence no earlier submission left unsignaled.
pub open spec fn submits_safely(s: FrameView, events: Seq<FrameEvent>) -> bool
    decreases events.len(),
{
    if events.len() == 0 {
        true
    } else {
        let (t, a) = step_spec(s, events[0]);
        &&& match a {
            FrameAction::Submit { slot, image } => !s.pending[slot as int],
            _ => true,
        }
        &&& submits_safely(t, events.drop_first())
    }
}

/// No silent fence reuse: over any sequence of events, however many frames it
/// renders, a frame slot's in-flight fence is never submitted again while a
/// prior submission may still leave it unsignaled.
pub proof fn lemma_no_fence_reuse(s: FrameView, events: Seq<FrameEvent>)
    requires
        frame_wf(s),
    ensures
        submits_safely(s, events),
    decreases events.len(),
{
    if events.len() > 0 {
        lemma_step_wf(s, events[0]);
        lemma_no_fence_reuse(step_spec(s, events[0]).0, events.drop_first());
    }
}

/// The state after `events` from `s`, and the actions asked for on the way.
pub open spec fn run(s: FrameView, events: Seq<FrameEvent>) -> (FrameView, Seq<FrameAction>)
    decreases events.len(),
{
    if events.len() == 0 {
        (s, Seq::empty())
    } else {
        let (t, a) = step_spec(s, events[0]);
        let (u, rest) = run(t, events.drop_first());
        (u, seq![a] + rest)
    }
}

/// A zero-area resize between frames pauses rendering: however many ticks
/// follow, none asks for any work, let alone a swapchain rebuild.
pub proof fn lemma_zero_resize_pauses(s: FrameView, width: u32, height: u32, ticks: nat)
    requires
        frame_wf(s),
        s.stage == Stage::Idle,
        width == 0 || height == 0,
    ensures
        ({
            let t = step_spec(s, FrameEvent::Resized { width, height }).0;
            run(t, Seq::new(ticks, |i: int| FrameEvent::Tick)) == (t, Seq::new(
                ticks,
                |i: int| FrameAction::Idle,
            ))
        }),
    decreases ticks,
{
    let t = step_spec(s, FrameEvent::Resized { width, height }).0;
    let events = Seq::new(ticks, |i: int| FrameEvent::Tick);
    if ticks > 0 {
        lemma_zero_resize_pauses(s, width, height, (ticks - 1) as nat);
        assert(events.drop_first() =~= Seq::new((ticks - 1) as nat, |i: int| FrameEvent::Tick));
        assert(seq![FrameAction::Idle] + Seq::new((ticks - 1) as nat, |i: int| FrameAction::Idle) =~= Seq::new(
            ticks,
            |i: int| FrameAction::Idle,
        ));
    } else {
        assert(events =~= Seq::<FrameEvent>::empty());
        assert(Seq::new(ticks, |i: int| FrameAction::Idle) =~= Seq::<FrameAction>::empty());
    }
}

/// A resize to a non-zero size between frames resumes rendering, and the
/// next frame that is presented asks for the swapchain to be rebuilt.
pub proof fn lemma_resize_rebuilds(s: FrameView, width: u32, height: u32, image: usize)
    requires
        frame_wf(s),
        s.stage == Stage::Idle,
        width > 0 && height > 0,
        image < s.in_flight.len(),
        s.in_flight[image as int] is None || s.in_flight[image as int] == Some(s.frame as usize),
    ensures
        ({
            let (t, actions) = run(
                s,
                seq![
                    FrameEvent::Resized { width, height },
                    FrameEvent::Tick,
                    FrameEvent::FenceSignaled,
                    FrameEvent::ImageAcquired(image),
                    FrameEvent::Recorded,
                    FrameEvent::Submitted,
                    FrameEvent::Presented(PresentOutcome::Optimal),
                ],
            );
            &&& actions[1] == FrameAction::WaitFence(s.frame as usize)
            &&& actions[6] == FrameAction::RecreateSwapchain
            &&& t.stage == Stage::AwaitResize
        }),
{
    reveal_with_fuel(run, 8);
    let events = seq![
        FrameEvent::Resized { width, height },
        FrameEvent::Tick,
        FrameEvent::FenceSignaled,
        FrameEvent::ImageAcquired(image),
        FrameEvent::Recorded,
        FrameEvent::Submitted,
        FrameEvent::Presented(PresentOutcome::Optimal),
    ];
    let e1 = events.drop_first();
    let e2 = e1.drop_first();
    let e3 = e2.drop_first();
    let e4 = e3.drop_first();
    let e5 = e4.drop_first();
    let e6 = e5.drop_first();
    let e7 = e6.drop_first();
    assert(e1 =~= events.subrange(1, 7));
    assert(e2 =~= events.subrange(2, 7));
    assert(e3 =~= events.subrange(3, 7));
    assert(e4 =~= events.subrange(4, 7));
    assert(e5 =~= events.subrange(5, 7));
    assert(e6 =~= events.subrange(6, 7));
    assert(e7 =~= Seq::<FrameEvent>::empty());
}

/// `count` empty image slots.
fn no_images_in_flight(count: usize) -> (r: Vec<Option<usize>>)
    ensures
        r@ == Seq::new(count as nat, |i: int| None::<usize>),
{
    let mut r: Vec<Option<usize>> = Vec::new();
    let mut i: usize = 0;
    while i < count
        invariant
            i <= count,
            r@ == Seq::new(i as nat, |j: int| None::<usize>),
        decreases count - i,
    {
        r.push(None);
        i = i + 1;
        assert(r@ =~= Seq::new(i as nat, |j: int| None::<usize>));
    }
    r
}

/// Every fence signaled, as the fences are created and as a device-idle wait leaves them.
fn all_signaled() -> (r: Vec<bool>)
    ensures
        r@ == Seq::new(MAX_FRAMES_IN_FLIGHT as nat, |i: int| false),
{
    let r = vec![false, false];
    assert(r@ =~= Seq::new(MAX_FRAMES_IN_FLIGHT as nat, |i: int| false));
    r
}

impl FrameLoop {
    /// A loop at slot 0, between frames, for a swapchain of `image_count`
    /// images; all fences start signaled and no image is in flight.
    pub fn new(image_count: usize) -> (r: Self)
        ensures
            frame_wf(r@),
            r@.frame == 0,
            r@.stage == Stage::Idle,
            r@.pending == Seq::new(MAX_FRAMES_IN_FLIGHT as nat, |i: int| false),
            r@.in_flight == Seq::new(image_count as nat, |i: int| None::<usize>),
            !r@.resized,
            !r@.minimized,
    {
        FrameLoop {
            frame: 0,
            image: 0,
            waiting_for: 0,
            stage: Stage::Idle,
            fence_pending: all_signaled(),
            images_in_flight: no_images_in_flight(image_count),
            resized: false,
            minimized: false,
            advance: false,
        }
    }

    /// The current frame slot.
    pub fn frame(&self) -> (r: usize)
        ensures
            r as int == self@.frame,
    {
        self.frame
    }

    /// Where the loop stands.
    pub fn stage(&self) -> (r: Stage)
        ensures
            r == self@.stage,
    {
        self.stage
    }

    /// Asks for a swapchain rebuild at the end of the next presented frame.
    pub fn must_resize(&mut self)
        requires
            frame_wf(old(self)@),
        ensures
            frame_wf(final(self)@),
            final(self)@ == (FrameView { resized: true, ..old(self)@ }),
    {
        self.resized = true;
    }

    fn stop(&mut self) -> (r: FrameAction)
        requires
            frame_wf(old(self)@),
        ensures
            frame_wf(final(self)@),
            (final(self)@, r) == stop(old(self)@),
    {
        self.stage = Stage::Stopped;
        FrameAction::Fatal
    }

    /// Takes one event and returns what to do next.
    ///
    /// A submission is only ever asked for on a slot whose fence no earlier
    /// submission left unsignaled, and a resize to a zero-area size never asks
    /// for a rebuild.
    pub fn step(&mut self, e: FrameEvent) -> (r: FrameAction)
        requires
            frame_wf(old(self)@),
        ensures
            frame_wf(final(self)@),
            (final(self)@, r) == step_spec(old(self)@, e),
            match r {
                FrameAction::Submit { slot, image } => !old(self)@.pending[slot as int]
                    && final(self)@.pending[slot as int],
                _ => true,
            },
            (e matches FrameEvent::Resized { width, height } && (width == 0 || height == 0)) ==> r
                == FrameAction::Idle && final(self)@.minimized,
    {
        match e {
            FrameEvent::Resized { width, height } => {
                if width == 0 || height == 0 {
                    self.minimized = true;
                } else {
                    self.minimized = false;
                    self.resized = true;
                }
                return FrameAction::Idle;
            },
            FrameEvent::Failed => {
                return self.stop();
            },
            _ => {},
        }
        match self.stage {
            Stage::Idle => match e {
                FrameEvent::Tick => {
                    if self.minimized {
                        FrameAction::Idle
                    } else {
                        self.stage = Stage::AwaitFence;
                        FrameAction::WaitFence(self.frame)
                    }
                },
                _ => self.stop(),
            },
            Stage::AwaitFence => match e {
                FrameEvent::FenceSignaled => {
                    self.fence_pending.set(self.frame, false);
                    self.stage = Stage::AwaitImage;
                    FrameAction::AcquireImage(self.frame)
                },
                _ => self.stop(),
            },
            Stage::AwaitImage => match e {
                FrameEvent::ImageAcquired(i) => {
                    if i >= self.images_in_flight.len() {
                        self.stop()
                    } else {
                        match self.images_in_flight[i] {
                            Some(other) if other != self.frame && self.fence_pending[other] => {
                                self.stage = Stage::AwaitImageFence;
                                self.image = i;
                                self.waiting_for = other;
                                FrameAction::WaitFence(other)
                            },
                            _ => {
                                self.images_in_flight.set(i, Some(self.frame));
                                self.stage = Stage::AwaitRecord;
                                self.image = i;
                                FrameAction::Record(i)
                            },
                        }
                    }
                },
                FrameEvent::AcquireOutOfDate => {
                    self.stage = Stage::AwaitResize;
                    self.advance = false;
                    FrameAction::RecreateSwapchain
                },
                _ => self.stop(),
            },
            Stage::AwaitImageFence => match e {
                FrameEvent::FenceSignaled => {
                    self.fence_pending.set(self.waiting_for, false);
                    self.images_in_flight.set(self.image, Some(self.frame));
                    self.stage = Stage::AwaitRecord;
                    FrameAction::Record(self.image)
                },
                _ => self.stop(),
            },
            Stage::AwaitRecord => match e {
                FrameEvent::Recorded => {
                    self.fence_pending.set(self.frame, true);
                    self.stage = Stage::AwaitSubmit;
                    FrameAction::Submit { slot: self.frame, image: self.image }
                },
                _ => self.stop(),
            },
            Stage::AwaitSubmit => match e {
                FrameEvent::Submitted => {
                    self.stage = Stage::AwaitPresent;
                    FrameAction::Present { slot: self.frame, image: self.image }
                },
                _ => self.stop(),
            },
            Stage::AwaitPresent => match e {
                FrameEvent::Presented(outcome) => {
                    if self.resized || outcome == PresentOutcome::Suboptimal || outcome
                        == PresentOutcome::OutOfDate {
                        self.resized = false;
                        self.advance = true;
                        self.stage = Stage::AwaitResize;
                        FrameAction::RecreateSwapchain
                    } else if outcome == PresentOutcome::Failed {
                        self.stop()
                    } else {
                        self.frame = (self.frame + 1) % MAX_FRAMES_IN_FLIGHT;
                        self.stage = Stage::Idle;
                        FrameAction::FrameDone
                    }
                },
                _ => self.stop(),
            },
            Stage::AwaitResize => match e {
                FrameEvent::Recreated(count) => {
                    if self.advance {
                        self.frame = (self.frame + 1) % MAX_FRAMES_IN_FLIGHT;
                    }
                    self.fence_pending = all_signaled();
                    self.images_in_flight = no_images_in_flight(count);
                    self.stage = Stage::Idle;
                    FrameAction::FrameDone
                },
                _ => self.stop(),
            },
            Stage::Stopped => self.stop(),
        }
    }
}

} // verus!
