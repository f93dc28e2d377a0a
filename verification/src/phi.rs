//! The frame context and the run-loop protocol: a `Phi` bundles the input
//! state and the renderer for the duration of one frame; a `GameView` is
//! one screen's update-and-draw step; `run_frame` drives one iteration of the
//! loop — schedule, sample input, step the active view, apply its action.

use vstd::prelude::*;

use crate::clock::{FrameClock, Tick, FRAME_INTERVAL_MS};
use crate::events::{
    has_quit, key_of_spec, key_run, resize_run, Events, KeyEdge, RawEvent,
};
use crate::gfx::{DrawCmd, Renderer};

verus! {

/// Everything a view may read while it steps, as one mathematical value:
/// the held flags and edge snapshot per key, the frame's quit and resize
/// signals, and the logical output size.
#[verifier::ext_equal]
pub struct FrameCtx {
    pub held: Seq<bool>,
    pub edges: Seq<KeyEdge>,
    pub quit: bool,
    pub resize: Option<(u32, u32)>,
    pub out_w: u32,
    pub out_h: u32,
}

impl FrameCtx {
    /// One entry per tracked key.
    pub open spec fn wf(self) -> bool {
        self.held.len() == 6 && self.edges.len() == 6
    }
}

/// The per-run context handed to the active view each frame: the sampled
/// input and the recording renderer.
#[verifier::ext_equal]
pub struct Phi {
    pub events: Events,
    pub renderer: Renderer,
}

impl Phi {
    pub open spec fn wf(self) -> bool {
        self.events.wf()
    }

    /// What a view may read of this context, as one value.
    pub open spec fn ctx(self) -> FrameCtx {
        FrameCtx {
            held: self.events.spec_held_seq(),
            edges: self.events.now.spec_edges(),
            quit: self.events.now.quit,
            resize: self.events.now.resize,
            out_w: self.renderer.output_w,
            out_h: self.renderer.output_h,
        }
    }

    pub fn new(events: Events, renderer: Renderer) -> (p: Phi)
        ensures
            p.events == events,
            p.renderer == renderer,
    {
        Phi { events, renderer }
    }

    /// The current logical output size in pixels.
    pub fn output_size(&self) -> (s: (u32, u32))
        ensures
            s.0 == self.renderer.output_w,
            s.1 == self.renderer.output_h,
    {
        self.renderer.output_size()
    }
}

/// The context a view will see after one frame's sampling pass: the raw
/// queue folded into the held flags and a fresh edge snapshot, over an
/// otherwise unchanged context whose command buffer starts the frame empty.
pub open spec fn pumped_ctx(phi: Phi, raw: Seq<RawEvent>) -> FrameCtx {
    FrameCtx {
        held: Seq::new(6, |j: int| key_run(
            phi.events.spec_held_seq()[j],
            KeyEdge::NotChanged,
            raw,
            key_of_spec(j),
        ).0),
        edges: Seq::new(6, |j: int| key_run(
            phi.events.spec_held_seq()[j],
            KeyEdge::NotChanged,
            raw,
            key_of_spec(j),
        ).1),
        quit: has_quit(raw),
        resize: resize_run(raw),
        out_w: phi.renderer.output_w,
        out_h: phi.renderer.output_h,
    }
}

/// The outcome a view reports to the run loop after one step. The new view
/// carried by `ChangeView` is handed over to the loop, which becomes its
/// exclusive owner in place of the view that returned it.
pub enum ViewAction<V> {
    /// Keep this view and present the frame.
    Continue,
    /// Terminate the run loop; the frame is not presented.
    Quit,
    /// Replace this view; the frame is not presented, and the new view
    /// receives its first step on the following tick.
    ChangeView(V),
}

/// A swappable unit encapsulating one screen's update-and-draw logic.
///
/// A view's step is a pure function of the view's state, the frame context
/// and the elapsed time; the three spec functions say which state, action
/// and drawing commands it yields, and `render` is bound to them. A step
/// may touch nothing of the context but the command buffer.
pub trait GameView: Sized {
    /// When the view is able to step.
    spec fn step_req(self, c: FrameCtx, elapsed_ms: u64) -> bool;

    /// The state this view has after stepping.
    spec fn step_state(self, c: FrameCtx, elapsed_ms: u64) -> Self;

    /// The action this view reports after stepping.
    spec fn step_action(self, c: FrameCtx, elapsed_ms: u64) -> ViewAction<Self>;

    /// The drawing commands this view records while stepping.
    spec fn step_draws(self, c: FrameCtx, elapsed_ms: u64) -> Seq<DrawCmd>;

    /// One frame of this view's logic and drawing. Elapsed time is in
    /// milliseconds.
    fn render(&mut self, context: &mut Phi, elapsed_ms: u64) -> (a: ViewAction<Self>)
        requires
            old(self).step_req(old(context).ctx(), elapsed_ms),
        ensures
            *final(self) == old(self).step_state(old(context).ctx(), elapsed_ms),
            a == old(self).step_action(old(context).ctx(), elapsed_ms),
            final(context).events == old(context).events,
            final(context).renderer.output_w == old(context).renderer.output_w,
            final(context).renderer.output_h == old(context).renderer.output_h,
            final(context).renderer.commands@ == old(context).renderer.commands@
                + old(self).step_draws(old(context).ctx(), elapsed_ms),
    ;
}

/// How the run loop resolved one view step.
#[derive(Clone, Copy, Debug, PartialEq, Eq, Structural)]
pub enum Resolution {
    /// The frame is presented; the same view stays active.
    Present,
    /// The active view was replaced; nothing is presented.
    Switch,
    /// The loop terminates; nothing is presented.
    Stop,
}

/// The view that is active after a step returning `a`, and how the loop
/// resolves the frame.
pub open spec fn apply_action_spec<V>(stepped: V, a: ViewAction<V>) -> (V, Resolution) {
    match a {
        ViewAction::Continue => (stepped, Resolution::Present),
        ViewAction::Quit => (stepped, Resolution::Stop),
        ViewAction::ChangeView(v2) => (v2, Resolution::Switch),
    }
}

/// Apply a view's action to the active-view slot: `Continue` presents and
/// keeps the view, `Quit` stops the loop, `ChangeView` installs the new
/// view — which the following frame will step — without presenting.
pub fn apply_action<V>(view: &mut V, a: ViewAction<V>) -> (r: Resolution)
    ensures
        (*final(view), r) == apply_action_spec(*old(view), a),
{
    match a {
        ViewAction::Continue => Resolution::Present,
        ViewAction::Quit => Resolution::Stop,
        ViewAction::ChangeView(v2) => {
            *view = v2;
            Resolution::Switch
        },
    }
}

/// A step that hands back `ChangeView(v2)` makes `v2` — and no other view —
/// the view the following frame dispatches to, and the frame of the
/// discarded view is not presented.
pub proof fn lemma_change_view_dispatch<V: GameView>(stepped: V, v2: V)
    ensures
        apply_action_spec(stepped, ViewAction::ChangeView(v2)).0 == v2,
        apply_action_spec(stepped, ViewAction::ChangeView(v2)).1 != Resolution::Present,
{
}

/// What one call of `run_frame` did.
pub enum FrameOutcome {
    /// Too early for a frame: sleep `wait_ms` and call again; no input was
    /// sampled and no view logic ran.
    Slept { wait_ms: u64 },
    /// The view stepped and kept control: present the recorded commands.
    Presented { fps_report: Option<u32> },
    /// The view stepped and was replaced: present nothing.
    Switched { fps_report: Option<u32> },
    /// The view asked to terminate: present nothing and leave the loop.
    Quit { fps_report: Option<u32> },
}

/// One iteration of the run loop at wall time `now`, with the frame's
/// drained raw events: schedule via the clock and, when a frame is due,
/// sample input into the context, step the active view once, and apply the
/// action it returns.
pub fn run_frame<V: GameView>(
    clock: &mut FrameClock,
    phi: &mut Phi,
    view: &mut V,
    now: u64,
    raw: &Vec<RawEvent>,
) -> (o: FrameOutcome)
    requires
        old(clock).wf(),
        now >= old(clock).before,
        old(phi).wf(),
        old(clock).runs(now) ==> old(view).step_req(
            pumped_ctx(*old(phi), raw@),
            old(clock).elapsed(now),
        ),
    ensures
        final(clock).wf(),
        final(phi).wf(),
        !old(clock).runs(now) ==> {
            &&& o matches FrameOutcome::Slept { wait_ms } && wait_ms == FRAME_INTERVAL_MS - (now
                - old(clock).before)
            &&& *final(clock) == *old(clock)
            &&& *final(phi) == *old(phi)
            &&& *final(view) == *old(view)
        },
        old(clock).runs(now) ==> {
            let c = pumped_ctx(*old(phi), raw@);
            let dt = old(clock).elapsed(now);
            let stepped = old(view).step_state(c, dt);
            let a = old(view).step_action(c, dt);
            let rep = if old(clock).reports(now) {
                Some((old(clock).fps + 1) as u32)
            } else {
                None
            };
            &&& final(clock).before == now
            &&& final(phi).ctx() == c
            &&& final(phi).renderer.commands@ == old(view).step_draws(c, dt)
            &&& (*final(view), match o {
                FrameOutcome::Slept { .. } => Resolution::Stop,
                FrameOutcome::Presented { .. } => Resolution::Present,
                FrameOutcome::Switched { .. } => Resolution::Switch,
                FrameOutcome::Quit { .. } => Resolution::Stop,
            }) == apply_action_spec(stepped, a)
            &&& !(o is Slept)
            &&& match o {
                FrameOutcome::Slept { .. } => false,
                FrameOutcome::Presented { fps_report } => fps_report == rep,
                FrameOutcome::Switched { fps_report } => fps_report == rep,
                FrameOutcome::Quit { fps_report } => fps_report == rep,
            }
        },
{
    let tick = clock.tick(now);
    match tick {
        Tick::Wait { ms } => FrameOutcome::Slept { wait_ms: ms },
        Tick::Run { elapsed_ms, fps_report } => {
            phi.renderer.begin_frame();
            phi.events.pump(raw);
            proof {
                assert(phi.ctx() =~= pumped_ctx(*old(phi), raw@));
            }
            let a = view.render(phi, elapsed_ms);
            proof {
                assert(phi.ctx() =~= pumped_ctx(*old(phi), raw@));
            }
            match apply_action(view, a) {
                Resolution::Present => FrameOutcome::Presented { fps_report },
                Resolution::Switch => FrameOutcome::Switched { fps_report },
                Resolution::Stop => FrameOutcome::Quit { fps_report },
            }
        },
    }
}

} // verus!
