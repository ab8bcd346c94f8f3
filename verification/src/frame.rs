//! The per-frame state machine: what one frame records and submits, how
//! acquisition failures are classified, and what the event loop must do
//! after each outcome.

use vstd::prelude::*;
use crate::surface::GraphicsContext;
use crate::surface::spec_reconfigure;

verus! {

/// What acquiring the next presentable texture from the surface reported.
/// The host performs the acquisition and hands the outcome in.
#[derive(Clone, Copy, PartialEq, Eq, Structural, Debug)]
pub enum AcquireOutcome {
    /// A texture was acquired; it can be drawn to and presented.
    Success,
    /// The surface was invalidated (for example after a driver reset).
    Lost,
    /// The surface no longer matches the window it is bound to.
    Outdated,
    /// Acquisition did not complete in time.
    Timeout,
    /// The platform is out of memory.
    OutOfMemory,
}

/// How a failed frame is classified for the caller.
#[derive(Clone, Copy, PartialEq, Eq, Structural, Debug)]
pub enum FrameError {
    /// The surface must be reconfigured at the last known size; the retry
    /// happens on the next scheduled frame, never immediately.
    Lost,
    /// The frame is skipped; the next scheduled frame is expected to succeed.
    Transient,
    /// The render loop must stop.
    Fatal,
}

/// A clear color, each channel in tenths of full intensity (so `10` is 1.0).
#[derive(Clone, Copy, PartialEq, Eq, Structural, Debug)]
pub struct ClearColor {
    pub red_tenths: u32,
    pub green_tenths: u32,
    pub blue_tenths: u32,
    pub alpha_tenths: u32,
}

/// The commands one successful frame records and submits. The host executes
/// the plan verbatim: it records `render_passes` passes clearing to `clear`,
/// submits `submissions` command buffers and presents the acquired texture
/// `presents` times.
#[derive(Clone, Copy, PartialEq, Eq, Structural, Debug)]
pub struct FramePlan {
    /// Render passes recorded into the command buffer.
    pub render_passes: u32,
    /// Draw calls inside the pass; this driver only clears.
    pub draw_calls: u32,
    /// Command buffers enqueued on the command queue.
    pub submissions: u32,
    /// Times the acquired texture is presented (consuming it).
    pub presents: u32,
    /// The color the pass clears its target to.
    pub clear: ClearColor,
    /// Whether the cleared contents are stored so they persist into
    /// presentation.
    pub stores_output: bool,
}

/// The fixed clear color: (0.1, 0.2, 0.3, 1.0) in unit intensity.
pub open spec fn spec_clear_color() -> ClearColor {
    ClearColor { red_tenths: 1, green_tenths: 2, blue_tenths: 3, alpha_tenths: 10 }
}

/// The plan of every successful frame: exactly one render pass with no draw
/// calls, clearing to the fixed color and storing the result, one submission
/// and one presentation.
pub open spec fn spec_frame_plan() -> FramePlan {
    FramePlan {
        render_passes: 1,
        draw_calls: 0,
        submissions: 1,
        presents: 1,
        clear: spec_clear_color(),
        stores_output: true,
    }
}

/// The classification of an acquisition outcome: success yields the frame
/// plan; a lost surface is recoverable by reconfiguration; an outdated or
/// timed-out acquisition is transient; out-of-memory is fatal.
pub open spec fn spec_classify(o: AcquireOutcome) -> Result<FramePlan, FrameError> {
    match o {
        AcquireOutcome::Success => Ok(spec_frame_plan()),
        AcquireOutcome::Lost => Err(FrameError::Lost),
        AcquireOutcome::Outdated => Err(FrameError::Transient),
        AcquireOutcome::Timeout => Err(FrameError::Transient),
        AcquireOutcome::OutOfMemory => Err(FrameError::Fatal),
    }
}

/// The fixed clear color as a value the host can turn into unit intensities.
pub fn clear_color() -> (c: ClearColor)
    ensures
        c == spec_clear_color(),
{
    ClearColor { red_tenths: 1, green_tenths: 2, blue_tenths: 3, alpha_tenths: 10 }
}

/// A host window event as the driver's input hook sees it. Interaction
/// logic is reserved for later, so the hook inspects nothing of it yet.
#[derive(Clone, Copy, PartialEq, Eq, Structural, Debug)]
pub struct InputEvent {
    /// The host's code for the kind of event it delivered.
    pub kind: u32,
}

/// Drives the per-frame operations over a graphics context. It holds no
/// state of its own beyond the context; between frames it is stateless
/// except for the size recorded there.
#[derive(Clone, Copy, PartialEq, Eq, Structural, Debug)]
pub struct FrameDriver {
    pub ctx: GraphicsContext,
}

impl FrameDriver {
    /// The driver is well formed when its context is.
    pub open spec fn wf(&self) -> bool {
        self.ctx.wf()
    }

    /// Takes ownership of a freshly negotiated context.
    pub fn new(ctx: GraphicsContext) -> (d: FrameDriver)
        ensures
            d.ctx == ctx,
    {
        FrameDriver { ctx }
    }

    /// Forwards a size change to the context. Returns whether the host must
    /// reapply the surface configuration: true exactly when both dimensions
    /// are positive; a zero-sized request changes nothing.
    pub fn resize(&mut self, width: u32, height: u32) -> (apply: bool)
        ensures
            final(self).ctx == spec_reconfigure(old(self).ctx, width, height),
            apply <==> (width > 0 && height > 0),
            !apply ==> *final(self) == *old(self),
            old(self).wf() ==> final(self).wf(),
    {
        self.ctx.reconfigure(width, height)
    }

    /// Hook for window input. Interaction logic is reserved for later, so
    /// every event is reported as not handled and the caller must continue
    /// its normal event processing.
    pub fn input(&mut self, _event: &InputEvent) -> (handled: bool)
        ensures
            !handled,
            *final(self) == *old(self),
    {
        false
    }

    /// Advances time-dependent state between frames. Nothing depends on
    /// time yet, so the driver is left unchanged.
    pub fn update(&mut self)
        ensures
            *final(self) == *old(self),
    {
    }

    /// One frame, decided from what acquisition reported: on success, the
    /// plan of commands to record, submit and present; otherwise the
    /// classified error. The driver itself is unchanged either way.
    pub fn render(&mut self, acquired: AcquireOutcome) -> (r: Result<FramePlan, FrameError>)
        ensures
            r == spec_classify(acquired),
            *final(self) == *old(self),
            acquired == AcquireOutcome::Success ==> r == Ok::<FramePlan, FrameError>(
                spec_frame_plan(),
            ),
    {
        match acquired {
            AcquireOutcome::Success => Ok(
                FramePlan {
                    render_passes: 1,
                    draw_calls: 0,
                    submissions: 1,
                    presents: 1,
                    clear: clear_color(),
                    stores_output: true,
                },
            ),
            AcquireOutcome::Lost => Err(FrameError::Lost),
            AcquireOutcome::Outdated => Err(FrameError::Transient),
            AcquireOutcome::Timeout => Err(FrameError::Transient),
            AcquireOutcome::OutOfMemory => Err(FrameError::Fatal),
        }
    }
}

/// What the event loop must do after one `render` outcome.
#[derive(Clone, Copy, PartialEq, Eq, Structural, Debug)]
pub enum LoopAction {
    /// The frame was presented; request the next redraw.
    Proceed,
    /// Reconfigure the surface at the last known size, then request the
    /// next redraw; the retry is the next scheduled frame.
    ReconfigureAtCurrentSize,
    /// Log and skip this frame; the next scheduled redraw serves as the
    /// retry.
    SkipFrame,
    /// Stop the render loop for good.
    Halt,
}

/// The event loop's dispatch on a frame outcome: success proceeds, a lost
/// surface is reconfigured at the last known size, a transient failure
/// skips the frame, and out-of-memory halts the loop.
pub open spec fn spec_after_render(r: Result<FramePlan, FrameError>) -> LoopAction {
    match r {
        Ok(_) => LoopAction::Proceed,
        Err(FrameError::Lost) => LoopAction::ReconfigureAtCurrentSize,
        Err(FrameError::Transient) => LoopAction::SkipFrame,
        Err(FrameError::Fatal) => LoopAction::Halt,
    }
}

/// Maps one frame outcome to the caller's next action, per the dispatch
/// above.
pub fn after_render(r: &Result<FramePlan, FrameError>) -> (a: LoopAction)
    ensures
        a == spec_after_render(*r),
{
    match r {
        Ok(_) => LoopAction::Proceed,
        Err(FrameError::Lost) => LoopAction::ReconfigureAtCurrentSize,
        Err(FrameError::Transient) => LoopAction::SkipFrame,
        Err(FrameError::Fatal) => LoopAction::Halt,
    }
}

/// Law: acquisition outcomes classify one to one — success to the frame
/// plan, a lost surface to the recoverable error, out-of-memory to the
/// fatal error, and exactly the outdated and timed-out acquisitions to the
/// transient error.
pub proof fn lemma_classification(o: AcquireOutcome)
    ensures
        spec_classify(o) is Ok <==> o == AcquireOutcome::Success,
        spec_classify(o) == Err::<FramePlan, FrameError>(FrameError::Lost) <==> o
            == AcquireOutcome::Lost,
        spec_classify(o) == Err::<FramePlan, FrameError>(FrameError::Fatal) <==> o
            == AcquireOutcome::OutOfMemory,
        spec_classify(o) == Err::<FramePlan, FrameError>(FrameError::Transient) <==> (o
            == AcquireOutcome::Outdated || o == AcquireOutcome::Timeout),
{
}

/// Law: a frame whose acquisition succeeds always renders successfully, and
/// its plan issues exactly one submission and one presentation — one render
/// pass, no draw calls, cleared to the fixed color with the contents stored.
pub proof fn lemma_successful_frame()
    ensures
        spec_classify(AcquireOutcome::Success) == Ok::<FramePlan, FrameError>(spec_frame_plan()),
        spec_frame_plan().submissions == 1,
        spec_frame_plan().presents == 1,
        spec_frame_plan().render_passes == 1,
        spec_frame_plan().draw_calls == 0,
        spec_frame_plan().stores_output,
        spec_frame_plan().clear == spec_clear_color(),
{
}

} // verus!
