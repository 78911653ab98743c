use vstd::prelude::*;

verus! {

/// Where the frame loop stands.
#[derive(Debug, Clone, Copy, PartialEq, Eq, Structural)]
pub enum Phase {
    /// Constructed; the loop has not started.
    Idle,
    /// The loop is running and frames are drawn.
    Running,
    /// A close was requested; no frame is drawn any more.
    Closing,
    /// The loop has exited.
    Terminated,
}

/// What the windowing layer reports to the loop.
#[derive(Debug, Clone, Copy, PartialEq, Eq, Structural)]
pub enum Signal {
    /// The loop has started.
    Started,
    /// The window's surface now has this width and height in pixels.
    Resized(u32, u32),
    /// The user asked to close the window.
    CloseRequested,
    /// The window should be drawn now.
    RedrawRequested,
    /// All pending events were handled; the loop is about to wait.
    AboutToWait,
    /// The loop is exiting.
    LoopExiting,
    /// Anything else, which the loop ignores.
    Other,
}

/// What the caller must do in answer to a signal.
#[derive(Debug, Clone, Copy, PartialEq, Eq, Structural)]
pub enum Action {
    /// Nothing.
    Nothing,
    /// Resize the context's presentation target, before any further draw.
    Resize(u32, u32),
    /// Ask the window for one redraw.
    RequestRedraw,
    /// Clear, draw and present one frame: `frame` is the number of fixed time
    /// steps taken so far, and the target is `width` by `height` pixels.
    Draw { frame: u64, width: u32, height: u32 },
    /// Leave the loop.
    Exit,
}

/// The state that the frame loop carries from one signal to the next.
#[derive(Debug, Clone, Copy, PartialEq, Eq, Structural)]
pub struct Scheduler {
    pub phase: Phase,
    /// The size the presentation target was last resized to.
    pub width: u32,
    pub height: u32,
    /// The number of fixed time steps taken: the animation time is this
    /// number times the step.
    pub frame: u64,
    /// A redraw was requested and has not been served yet.
    pub redraw_pending: bool,
    /// A frame was drawn since the loop last waited.
    pub drawn_this_pass: bool,
}

/// The frame count after one more step; it stays at the largest value.
pub open spec fn next_frame(frame: u64) -> u64 {
    if frame == u64::MAX {
        frame
    } else {
        (frame + 1) as u64
    }
}

/// The state and the action that follow `s` on signal `e`.
pub open spec fn transition(s: Scheduler, e: Signal) -> (Scheduler, Action) {
    match s.phase {
        Phase::Idle => match e {
            Signal::Started => (
                Scheduler { phase: Phase::Running, redraw_pending: true, ..s },
                Action::RequestRedraw,
            ),
            Signal::Resized(w, h) => (Scheduler { width: w, height: h, ..s }, Action::Resize(w, h)),
            Signal::CloseRequested => (Scheduler { phase: Phase::Closing, ..s }, Action::Exit),
            Signal::LoopExiting => (Scheduler { phase: Phase::Terminated, ..s }, Action::Nothing),
            _ => (s, Action::Nothing),
        },
        Phase::Running => match e {
            Signal::Resized(w, h) => (Scheduler { width: w, height: h, ..s }, Action::Resize(w, h)),
            Signal::CloseRequested => (Scheduler { phase: Phase::Closing, ..s }, Action::Exit),
            Signal::RedrawRequested => if s.drawn_this_pass {
                (Scheduler { redraw_pending: false, ..s }, Action::Nothing)
            } else {
                let f = next_frame(s.frame);
                (
                    Scheduler { frame: f, redraw_pending: false, drawn_this_pass: true, ..s },
                    Action::Draw { frame: f, width: s.width, height: s.height },
                )
            },
            Signal::AboutToWait => (
                Scheduler { redraw_pending: true, drawn_this_pass: false, ..s },
                Action::RequestRedraw,
            ),
            Signal::LoopExiting => (Scheduler { phase: Phase::Terminated, ..s }, Action::Nothing),
            _ => (s, Action::Nothing),
        },
        Phase::Closing => match e {
            Signal::LoopExiting => (Scheduler { phase: Phase::Terminated, ..s }, Action::Nothing),
            _ => (s, Action::Nothing),
        },
        Phase::Terminated => (s, Action::Nothing),
    }
}

/// The state reached from `s` on the signals `es`, in order, and the actions
/// returned along the way.
pub open spec fn run(s: Scheduler, es: Seq<Signal>) -> (Scheduler, Seq<Action>)
    decreases es.len(),
{
    if es.len() == 0 {
        (s, Seq::empty())
    } else {
        let (mid, acts) = run(s, es.drop_last());
        let (next, a) = transition(mid, es.last());
        (next, acts.push(a))
    }
}

/// The number of draws among `acts`.
pub open spec fn draw_count(acts: Seq<Action>) -> nat
    decreases acts.len(),
{
    if acts.len() == 0 {
        0
    } else {
        draw_count(acts.drop_last()) + if acts.last() is Draw {
            1nat
        } else {
            0nat
        }
    }
}

/// The loop no longer draws: a close was requested or the loop has exited.
pub open spec fn is_shut(s: Scheduler) -> bool {
    s.phase is Closing || s.phase is Terminated
}

impl Scheduler {
    /// A loop that has not started, for a surface of `width` by `height` pixels.
    pub fn new(width: u32, height: u32) -> (r: Scheduler)
        ensures
            r == (Scheduler {
                phase: Phase::Idle,
                width,
                height,
                frame: 0,
                redraw_pending: false,
                drawn_this_pass: false,
            }),
    {
        Scheduler {
            phase: Phase::Idle,
            width,
            height,
            frame: 0,
            redraw_pending: false,
            drawn_this_pass: false,
        }
    }

    /// Takes one signal: updates the state and returns what the caller must do.
    pub fn step(&mut self, e: Signal) -> (a: Action)
        ensures
            (*final(self), a) == transition(*old(self), e),
    {
        match self.phase {
            Phase::Idle => match e {
                Signal::Started => {
                    self.phase = Phase::Running;
                    self.redraw_pending = true;
                    Action::RequestRedraw
                },
                Signal::Resized(w, h) => {
                    self.width = w;
                    self.height = h;
                    Action::Resize(w, h)
                },
                Signal::CloseRequested => {
                    self.phase = Phase::Closing;
                    Action::Exit
                },
                Signal::LoopExiting => {
                    self.phase = Phase::Terminated;
                    Action::Nothing
                },
                _ => Action::Nothing,
            },
            Phase::Running => match e {
                Signal::Resized(w, h) => {
                    self.width = w;
                    self.height = h;
                    Action::Resize(w, h)
                },
                Signal::CloseRequested => {
                    self.phase = Phase::Closing;
                    Action::Exit
                },
                Signal::RedrawRequested => {
                    self.redraw_pending = false;
                    if self.drawn_this_pass {
                        Action::Nothing
                    } else {
                        if self.frame < u64::MAX {
                            self.frame = self.frame + 1;
                        }
                        self.drawn_this_pass = true;
                        Action::Draw { frame: self.frame, width: self.width, height: self.height }
                    }
                },
                Signal::AboutToWait => {
                    self.drawn_this_pass = false;
                    self.redraw_pending = true;
                    Action::RequestRedraw
                },
                Signal::LoopExiting => {
                    self.phase = Phase::Terminated;
                    Action::Nothing
                },
                _ => Action::Nothing,
            },
            Phase::Closing => match e {
                Signal::LoopExiting => {
                    self.phase = Phase::Terminated;
                    Action::Nothing
                },
                _ => Action::Nothing,
            },
            Phase::Terminated => Action::Nothing,
        }
    }

    /// Takes the signals `es` in order and returns the actions, one for each.
    pub fn step_all(&mut self, es: &Vec<Signal>) -> (acts: Vec<Action>)
        ensures
            (*final(self), acts@) == run(*old(self), es@),
    {
        let ghost start = *self;
        let mut acts: Vec<Action> = Vec::new();
        let mut i: usize = 0;
        while i < es.len()
            invariant
                i <= es.len(),
                (*self, acts@) == run(start, es@.take(i as int)),
            decreases es.len() - i,
        {
            assert(es@.take(i as int + 1).drop_last() =~= es@.take(i as int));
            let a = self.step(es[i]);
            acts.push(a);
            i = i + 1;
        }
        assert(es@.take(i as int) =~= es@);
        acts
    }
}

/// The place of a phase in the loop's life: it only ever moves forward.
pub open spec fn phase_rank(p: Phase) -> nat {
    match p {
        Phase::Idle => 0,
        Phase::Running => 1,
        Phase::Closing => 2,
        Phase::Terminated => 3,
    }
}

/// The loop's phase never moves back, and it starts running only once, from
/// idle, when the loop starts.
pub proof fn lemma_phase_moves_forward(s: Scheduler, e: Signal)
    ensures
        phase_rank(transition(s, e).0.phase) >= phase_rank(s.phase),
        (transition(s, e).0.phase is Running && !(s.phase is Running)) <==> (s.phase is Idle
            && e is Started),
{
}

/// Resizing twice in a row to the same size leaves the loop as resizing once
/// does, asks for the same resize, and every later signal is answered as
/// after one resize. While the loop has not been closed, the resize sets the
/// target to `w` by `h`, changes nothing else, and draws nothing.
pub proof fn lemma_resize_idempotent(s: Scheduler, w: u32, h: u32, es: Seq<Signal>)
    ensures
        transition(transition(s, Signal::Resized(w, h)).0, Signal::Resized(w, h)) == transition(
            s,
            Signal::Resized(w, h),
        ),
        run(transition(transition(s, Signal::Resized(w, h)).0, Signal::Resized(w, h)).0, es)
            == run(transition(s, Signal::Resized(w, h)).0, es),
        !is_shut(s) ==> transition(s, Signal::Resized(w, h)) == (
            Scheduler { width: w, height: h, ..s },
            Action::Resize(w, h),
        ),
{
}

/// A close request ends the loop: a loop not yet closed is asked to exit at
/// once (a closed one has been asked already); whatever signals follow, no
/// frame is drawn after it, and the loop's exit leaves it terminated.
pub proof fn lemma_no_draw_after_close(s: Scheduler, es: Seq<Signal>)
    ensures
        !is_shut(s) ==> transition(s, Signal::CloseRequested).1 == Action::Exit,
        is_shut(s) ==> transition(s, Signal::CloseRequested).1 == Action::Nothing,
        is_shut(run(transition(s, Signal::CloseRequested).0, es).0),
        draw_count(run(transition(s, Signal::CloseRequested).0, es).1) == 0,
        forall|i: int|
            0 <= i < es.len() ==> !(#[trigger] run(transition(s, Signal::CloseRequested).0, es).1[i] is Draw),
        transition(run(transition(s, Signal::CloseRequested).0, es).0, Signal::LoopExiting).0.phase
            is Terminated,
{
    let c = transition(s, Signal::CloseRequested).0;
    lemma_shut_stays_shut(c, es);
    lemma_no_draw_in(run(c, es).1);
}

/// Once shut, the loop stays shut and draws nothing.
pub proof fn lemma_shut_stays_shut(s: Scheduler, es: Seq<Signal>)
    requires
        is_shut(s),
    ensures
        is_shut(run(s, es).0),
        draw_count(run(s, es).1) == 0,
        run(s, es).1.len() == es.len(),
    decreases es.len(),
{
    if es.len() > 0 {
        lemma_shut_stays_shut(s, es.drop_last());
        let (mid, acts) = run(s, es.drop_last());
        let (next, a) = transition(mid, es.last());
        assert(acts.push(a).drop_last() =~= acts);
    }
}

/// After a resize to `w` by `h`, every frame drawn before the next resize is
/// drawn at `w` by `h`.
pub proof fn lemma_draw_after_resize(s: Scheduler, w: u32, h: u32, es: Seq<Signal>)
    requires
        forall|i: int| 0 <= i < es.len() ==> !(#[trigger] es[i] is Resized),
    ensures
        forall|i: int|
            0 <= i < es.len() ==> (#[trigger] run(
                transition(s, Signal::Resized(w, h)).0,
                es,
            ).1[i] matches Action::Draw { width, height, .. } ==> width == w && height == h),
{
    let r = transition(s, Signal::Resized(w, h)).0;
    if is_shut(r) {
        lemma_shut_stays_shut(r, es);
        lemma_no_draw_in(run(r, es).1);
    } else {
        lemma_size_kept(r, es);
    }
}

/// No action of a sequence with no draws is a draw.
proof fn lemma_no_draw_in(acts: Seq<Action>)
    requires
        draw_count(acts) == 0,
    ensures
        forall|i: int| 0 <= i < acts.len() ==> !(#[trigger] acts[i] is Draw),
    decreases acts.len(),
{
    if acts.len() > 0 {
        lemma_no_draw_in(acts.drop_last());
        assert forall|i: int| 0 <= i < acts.len() implies !(#[trigger] acts[i] is Draw) by {
            if i < acts.len() - 1 {
                assert(acts[i] == acts.drop_last()[i]);
            }
        }
    }
}

/// With no resize among `es`, the size stays, and every draw uses it.
pub proof fn lemma_size_kept(s: Scheduler, es: Seq<Signal>)
    requires
        forall|i: int| 0 <= i < es.len() ==> !(#[trigger] es[i] is Resized),
    ensures
        run(s, es).0.width == s.width,
        run(s, es).0.height == s.height,
        run(s, es).1.len() == es.len(),
        forall|i: int|
            0 <= i < es.len() ==> (#[trigger] run(s, es).1[i] matches Action::Draw {
                width,
                height,
                ..
            } ==> width == s.width && height == s.height),
    decreases es.len(),
{
    if es.len() > 0 {
        let pre = es.drop_last();
        assert forall|i: int| 0 <= i < pre.len() implies !(#[trigger] pre[i] is Resized) by {
            assert(pre[i] == es[i]);
        }
        lemma_size_kept(s, pre);
        assert(!(es[es.len() - 1] is Resized));
        let (mid, acts) = run(s, pre);
        let (next, a) = transition(mid, es.last());
        assert forall|i: int| 0 <= i < es.len() implies (#[trigger] run(s, es).1[i] matches Action::Draw {
            width,
            height,
            ..
        } ==> width == s.width && height == s.height) by {
            if i < es.len() - 1 {
                assert(run(s, es).1[i] == acts[i]);
            }
        }
    }
}

/// Between two waits of the loop, at most one frame is drawn, however many
/// redraws are asked for.
pub proof fn lemma_one_draw_per_pass(s: Scheduler, es: Seq<Signal>)
    requires
        forall|i: int| 0 <= i < es.len() ==> !(#[trigger] es[i] is AboutToWait),
    ensures
        draw_count(run(s, es).1) <= 1,
        s.drawn_this_pass ==> draw_count(run(s, es).1) == 0,
{
    lemma_pass_draws(s, es);
}

/// The animation advances by exactly one fixed step for each frame drawn,
/// and each draw hands over the step count reached, as long as the count
/// stays within its range.
pub proof fn lemma_frame_counts_draws(s: Scheduler, es: Seq<Signal>)
    requires
        s.frame + es.len() <= u64::MAX,
    ensures
        run(s, es).0.frame == s.frame + draw_count(run(s, es).1),
        forall|i: int|
            0 <= i < es.len() ==> (#[trigger] run(s, es).1[i] matches Action::Draw { frame, .. }
                ==> frame == s.frame + draw_count(run(s, es).1.take(i + 1))),
    decreases es.len(),
{
    lemma_run_len(s, es);
    if es.len() > 0 {
        let pre = es.drop_last();
        lemma_frame_counts_draws(s, pre);
        lemma_draw_count_bound(run(s, pre).1);
        let (mid, acts) = run(s, pre);
        let (next, a) = transition(mid, es.last());
        let all = acts.push(a);
        assert(all.drop_last() =~= acts);
        assert(all.take(all.len() as int) =~= all);
        assert forall|i: int| 0 <= i < es.len() implies (#[trigger] run(s, es).1[i] matches Action::Draw {
            frame,
            ..
        } ==> frame == s.frame + draw_count(run(s, es).1.take(i + 1))) by {
            if i < es.len() - 1 {
                assert(all[i] == acts[i]);
                assert(all.take(i + 1) =~= acts.take(i + 1));
            }
        }
    }
}

/// One action for each signal.
proof fn lemma_run_len(s: Scheduler, es: Seq<Signal>)
    ensures
        run(s, es).1.len() == es.len(),
    decreases es.len(),
{
    if es.len() > 0 {
        lemma_run_len(s, es.drop_last());
    }
}

/// There are no more draws than actions.
proof fn lemma_draw_count_bound(acts: Seq<Action>)
    ensures
        draw_count(acts) <= acts.len(),
    decreases acts.len(),
{
    if acts.len() > 0 {
        lemma_draw_count_bound(acts.drop_last());
    }
}

proof fn lemma_pass_draws(s: Scheduler, es: Seq<Signal>)
    requires
        forall|i: int| 0 <= i < es.len() ==> !(#[trigger] es[i] is AboutToWait),
    ensures
        (if s.drawn_this_pass { 1nat } else { 0nat }) + draw_count(run(s, es).1) <= 1,
        (s.drawn_this_pass || draw_count(run(s, es).1) > 0) ==> run(s, es).0.drawn_this_pass,
    decreases es.len(),
{
    if es.len() > 0 {
        let pre = es.drop_last();
        assert forall|i: int| 0 <= i < pre.len() implies !(#[trigger] pre[i] is AboutToWait) by {
            assert(pre[i] == es[i]);
        }
        lemma_pass_draws(s, pre);
        assert(!(es[es.len() - 1] is AboutToWait));
        let (mid, acts) = run(s, pre);
        let (next, a) = transition(mid, es.last());
        assert(acts.push(a).drop_last() =~= acts);
    }
}

} // verus!
