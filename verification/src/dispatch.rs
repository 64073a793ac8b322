use vstd::prelude::*;
use crate::action::Action;
use crate::camera::CameraCapture;
use crate::camera::CaptureState;
use crate::camera::CaptureStep;
use crate::camera::capture_decision_spec;
use crate::camera::apply_start;
use crate::camera::apply_stop;

verus! {

/// The single UI mode of this application.
#[derive(Default, Debug, Copy, Clone, PartialEq, Eq, Hash, Structural)]
pub enum Mode {
    #[default]
    Home,
}

/// Whether a message carries a captured frame; frame messages are the ones
/// the dispatch loop coalesces.
pub open spec fn is_frame_msg(a: Action) -> bool {
    match a {
        Action::CameraFrame(_, _, _) => true,
        _ => false,
    }
}

/// The non-frame messages of a drained batch, in arrival order.
pub open spec fn non_frames(s: Seq<Action>) -> Seq<Action> {
    s.filter(|m: Action| !is_frame_msg(m))
}

/// The frame messages of a drained batch, in arrival order.
pub open spec fn frames_of(s: Seq<Action>) -> Seq<Action> {
    s.filter(|m: Action| is_frame_msg(m))
}

/// Appending one element to a batch extends its filtered part by that
/// element exactly when the predicate holds of it.
proof fn lemma_filter_push(s: Seq<Action>, x: Action, p: spec_fn(Action) -> bool)
    ensures
        s.push(x).filter(p) == if p(x) {
            s.filter(p).push(x)
        } else {
            s.filter(p)
        },
{
    reveal(Seq::filter);
    assert(s.push(x).drop_last() =~= s);
    assert(s.push(x).last() == x);
}

/// Every message of a batch is either a frame message or a non-frame
/// message, so the two partitions together carry the whole batch.
proof fn lemma_partition_len(s: Seq<Action>)
    ensures
        non_frames(s).len() + frames_of(s).len() == s.len(),
    decreases s.len(),
{
    reveal(Seq::filter);
    if s.len() > 0 {
        lemma_partition_len(s.drop_last());
        assert(s.drop_last().push(s.last()) =~= s);
        lemma_filter_push(s.drop_last(), s.last(), |m: Action| !is_frame_msg(m));
        lemma_filter_push(s.drop_last(), s.last(), |m: Action| is_frame_msg(m));
    }
}

/// What one dispatch cycle will process: every non-frame message in arrival
/// order, and then at most one frame message — the most recent one.
pub struct DispatchPlan {
    pub others: Vec<Action>,
    pub frame: Option<Action>,
}

/// Partitions one drained batch of messages into the dispatch plan: all
/// non-frame messages are kept in order; of the frame messages only the
/// last (the freshest) is kept, and every earlier frame is discarded
/// unprocessed. This is the backpressure rule: under load, frame freshness
/// is preferred over frame completeness.
pub fn plan_cycle(msgs: Vec<Action>) -> (plan: DispatchPlan)
    ensures
        plan.others@ == non_frames(msgs@),
        frames_of(msgs@).len() == 0 ==> plan.frame is None,
        frames_of(msgs@).len() > 0 ==> plan.frame == Some(frames_of(msgs@).last()),
{
    let ghost orig: Seq<Action> = msgs@;
    let mut msgs: Vec<Action> = msgs;
    let mut others: Vec<Action> = Vec::new();
    let mut frames: Vec<Action> = Vec::new();
    let ghost mut done: Seq<Action> = Seq::empty();
    proof {
        reveal(Seq::filter);
        assert(done + msgs@ =~= orig);
    }
    while msgs.len() > 0
        invariant
            done + msgs@ =~= orig,
            others@ == non_frames(done),
            frames@ == frames_of(done),
        decreases msgs@.len(),
    {
        let a: Action = msgs.remove(0);
        let is_frame: bool = match &a {
            Action::CameraFrame(_, _, _) => true,
            _ => false,
        };
        proof {
            lemma_filter_push(done, a, |m: Action| !is_frame_msg(m));
            lemma_filter_push(done, a, |m: Action| is_frame_msg(m));
            assert(done.push(a) + msgs@ =~= orig);
        }
        if is_frame {
            frames.push(a);
        } else {
            others.push(a);
        }
        proof {
            done = done.push(a);
        }
    }
    proof {
        assert(done =~= orig);
    }
    let mut frames: Vec<Action> = frames;
    let frame: Option<Action> = frames.pop();
    DispatchPlan { others, frame }
}

/// Backpressure law: however many messages one cycle drains, the plan
/// processes every non-frame message and exactly one frame message when any
/// frame message arrived (none otherwise); nothing else survives the cycle.
pub proof fn lemma_backpressure(msgs: Seq<Action>)
    ensures
        non_frames(msgs).len() + frames_of(msgs).len() == msgs.len(),
        forall|i: int|
            0 <= i < non_frames(msgs).len() ==> !is_frame_msg(#[trigger] non_frames(msgs)[i]),
        frames_of(msgs).len() > 0 ==> is_frame_msg(frames_of(msgs).last()),
{
    lemma_partition_len(msgs);
    assert forall|i: int|
        0 <= i < non_frames(msgs).len() implies !is_frame_msg(
        #[trigger] non_frames(msgs)[i],
    ) by {
        msgs.lemma_filter_pred(|m: Action| !is_frame_msg(m), i);
    }
    if frames_of(msgs).len() > 0 {
        msgs.lemma_filter_pred(
            |m: Action| is_frame_msg(m),
            frames_of(msgs).len() - 1,
        );
    }
}

} // verus!

verus! {

/// A device-directed step that a camera toggle asks of the shell.
#[derive(Debug, Clone, Copy, PartialEq, Eq, Structural)]
pub enum ToggleStep {
    OpenDevice,
    OpenStream,
    CloseStream,
}

/// The outside work one processed action asks of the shell that runs the
/// loop; everything else already happened inside the library state.
#[derive(Debug, Clone, Copy, PartialEq, Eq, Structural)]
pub enum Effect {
    Nothing,
    ClearScreen,
    Resize(u16, u16),
    Render,
    ReadFrame,
    Toggle(ToggleStep),
}

/// What a camera toggle asks for in each engine state: without a device it
/// asks to open one (initialization then follows with a start), from `Idle`
/// it asks to open the stream, and while streaming it asks to close it.
pub open spec fn toggle_decision_spec(s: CaptureState) -> ToggleStep {
    match s {
        CaptureState::Uninitialized => ToggleStep::OpenDevice,
        CaptureState::Error(_) => ToggleStep::OpenDevice,
        CaptureState::Idle => ToggleStep::OpenStream,
        CaptureState::Active => ToggleStep::CloseStream,
    }
}

/// The application core: ownership of the capture engine and the loop's own
/// flags. The shell performs the effects this core decides.
pub struct App {
    pub should_quit: bool,
    pub should_suspend: bool,
    pub mode: Mode,
    pub camera: CameraCapture,
}

/// The core state after one action is processed.
pub open spec fn process_state_spec(a: App, act: Action) -> App {
    match act {
        Action::Quit => App { should_quit: true, ..a },
        Action::Suspend => App { should_suspend: true, ..a },
        Action::Resume => App { should_suspend: false, ..a },
        _ => a,
    }
}

/// The outside work one action asks for: a tick asks for a device read
/// exactly when the capture engine admits one now, and a camera toggle asks
/// for the device step the engine state calls for.
pub open spec fn process_effect_spec(a: App, act: Action, now_ms: u64) -> Effect {
    match act {
        Action::Tick => if capture_decision_spec(a.camera, now_ms) == CaptureStep::ReadFrame {
            Effect::ReadFrame
        } else {
            Effect::Nothing
        },
        Action::ClearScreen => Effect::ClearScreen,
        Action::Resize(w, h) => Effect::Resize(w, h),
        Action::Render => Effect::Render,
        Action::ToggleCamera => Effect::Toggle(toggle_decision_spec(a.camera.state)),
        _ => Effect::Nothing,
    }
}

impl App {
    /// A fresh core: not quitting, not suspended, home mode, and an
    /// uninitialized capture engine.
    pub fn new() -> (r: App)
        ensures
            !r.should_quit,
            !r.should_suspend,
            r.mode == Mode::Home,
            r.camera == (CameraCapture {
                state: CaptureState::Uninitialized,
                last_frame_ms: 0u64,
                has_last_frame: false,
                frame_skip_threshold_ms: 50u64,
            }),
    {
        App {
            should_quit: false,
            should_suspend: false,
            mode: Mode::Home,
            camera: CameraCapture::new(),
        }
    }

    /// Decides the device step a camera toggle asks for right now.
    pub fn handle_camera_toggle(&self) -> (r: ToggleStep)
        ensures
            r == toggle_decision_spec(self.camera.state),
    {
        match &self.camera.state {
            CaptureState::Uninitialized => ToggleStep::OpenDevice,
            CaptureState::Error(_) => ToggleStep::OpenDevice,
            CaptureState::Idle => ToggleStep::OpenStream,
            CaptureState::Active => ToggleStep::CloseStream,
        }
    }

    /// Processes one action: updates the loop flags and returns the outside
    /// work the action asks for. `now_ms` is the shell's monotonic clock
    /// reading, used by the capture rate limiter on ticks.
    pub fn process_action(&mut self, action: &Action, now_ms: u64) -> (e: Effect)
        ensures
            *final(self) == process_state_spec(*old(self), *action),
            e == process_effect_spec(*old(self), *action, now_ms),
    {
        match action {
            Action::Tick => {
                let step: CaptureStep = self.camera.capture_frame(now_ms);
                match step {
                    CaptureStep::ReadFrame => Effect::ReadFrame,
                    _ => Effect::Nothing,
                }
            },
            Action::Quit => {
                self.should_quit = true;
                Effect::Nothing
            },
            Action::Suspend => {
                self.should_suspend = true;
                Effect::Nothing
            },
            Action::Resume => {
                self.should_suspend = false;
                Effect::Nothing
            },
            Action::ClearScreen => Effect::ClearScreen,
            Action::Resize(w, h) => Effect::Resize(*w, *h),
            Action::Render => Effect::Render,
            Action::ToggleCamera => Effect::Toggle(self.handle_camera_toggle()),
            _ => Effect::Nothing,
        }
    }

    /// Records the outcome of the stream open a toggle asked for and yields
    /// the UI-visible follow-up message: a start notice on success, the
    /// given error message otherwise. Nothing fails silently.
    pub fn on_toggle_started(&mut self, ok: bool, err_msg: String) -> (r: Action)
        requires
            old(self).camera.state == CaptureState::Idle,
        ensures
            final(self).camera.state == apply_start(old(self).camera.state, ok),
            *final(self) == (App {
                camera: CameraCapture {
                    state: apply_start(old(self).camera.state, ok),
                    ..old(self).camera
                },
                ..*old(self)
            }),
            ok ==> r == Action::StartCamera,
            !ok ==> r == Action::CameraError(err_msg),
    {
        let res: Result<(), crate::camera::CaptureError> = self.camera.on_stream_opened(ok);
        match res {
            Ok(()) => Action::StartCamera,
            Err(_) => Action::CameraError(err_msg),
        }
    }

    /// Records the outcome of the stream close a toggle asked for and yields
    /// the UI-visible follow-up message: a stop notice on success, the given
    /// error message otherwise — a failed close keeps the engine `Active`.
    pub fn on_toggle_stopped(&mut self, ok: bool, err_msg: String) -> (r: Action)
        requires
            old(self).camera.state == CaptureState::Active,
        ensures
            final(self).camera.state == apply_stop(old(self).camera.state, ok),
            *final(self) == (App {
                camera: CameraCapture {
                    state: apply_stop(old(self).camera.state, ok),
                    ..old(self).camera
                },
                ..*old(self)
            }),
            ok ==> r == Action::StopCamera,
            !ok ==> r == Action::CameraError(err_msg),
    {
        self.camera.on_stream_closed(ok);
        if ok {
            Action::StopCamera
        } else {
            Action::CameraError(err_msg)
        }
    }
}

} // verus!
