use arcaders::clock::FrameClock;
use arcaders::data::Rectangle;
use arcaders::events::{Events, Key, RawEvent};
use arcaders::gfx::{DrawCmd, Renderer, Sprite};
use arcaders::phi::{
    apply_action, run_frame, FrameCtx, FrameOutcome, GameView, Phi, Resolution, ViewAction,
};
use vstd::prelude::Seq;
use arcaders::views::ShipView;

fn sheet() -> Sprite {
    Sprite::new(0, 129, 117)
}

fn fresh_phi() -> Phi {
    Phi::new(Events::new(), Renderer::new(800, 600))
}

#[test]
fn ship_view_cuts_nine_frames() {
    let view = ShipView::new(&sheet()).unwrap();
    assert_eq!(view.player.sprites.len(), 9);
    assert_eq!(view.player.rect, Rectangle { x: 64, y: 64, w: 43, h: 39 });
    // Row-major cells, each offset by the sheet's origin.
    assert_eq!(
        view.player.sprites[0].src,
        Rectangle { x: 0, y: 0, w: 43, h: 39 }
    );
    assert_eq!(
        view.player.sprites[5].src,
        Rectangle { x: 86, y: 39, w: 43, h: 39 }
    );
    assert_eq!(
        view.player.sprites[8].src,
        Rectangle { x: 86, y: 78, w: 43, h: 39 }
    );
}

#[test]
fn ship_view_rejects_a_sheet_too_small() {
    assert!(ShipView::new(&Sprite::new(0, 128, 117)).is_none());
    assert!(ShipView::new(&Sprite::new(0, 129, 116)).is_none());
    assert!(ShipView::new(&Sprite::new(0, 129, 117)).is_some());
}

#[test]
fn held_key_moves_the_ship() {
    let mut clock = FrameClock::new(0);
    let mut phi = fresh_phi();
    let mut view = ShipView::new(&sheet()).unwrap();

    // 180 px/s for 1000 ms moves 180 px right: 64 -> 244.
    let o = run_frame(
        &mut clock,
        &mut phi,
        &mut view,
        1000,
        &vec![RawEvent::KeyDown(Key::Right)],
    );
    assert!(matches!(o, FrameOutcome::Presented { .. }));
    assert_eq!(view.player.rect.x, 244);
    assert_eq!(view.player.rect.y, 64);

    // Up and Right held: a diagonal frame of 16 ms moves by
    // 180 * 16 / 1000 = 2, scaled by 707/1000 to 1 pixel per axis.
    let o2 = run_frame(
        &mut clock,
        &mut phi,
        &mut view,
        1016,
        &vec![RawEvent::KeyDown(Key::Up)],
    );
    assert!(matches!(o2, FrameOutcome::Presented { .. }));
    assert_eq!(view.player.rect.x, 245);
    assert_eq!(view.player.rect.y, 63);
}

#[test]
fn ship_is_clamped_to_the_movable_region() {
    let mut clock = FrameClock::new(0);
    let mut phi = fresh_phi();
    let mut view = ShipView::new(&sheet()).unwrap();
    view.player.rect.x = 760;
    view.player.rect.y = 0;

    // The movable region is the left 800 * 7 / 10 = 560 pixels: the ship is
    // pulled back to x = 560 - 43 = 517.
    let o = run_frame(&mut clock, &mut phi, &mut view, 16, &vec![]);
    assert!(matches!(o, FrameOutcome::Presented { .. }));
    assert_eq!(view.player.rect, Rectangle { x: 517, y: 0, w: 43, h: 39 });
}

#[test]
fn frame_records_the_ship_draw_commands() {
    let mut clock = FrameClock::new(0);
    let mut phi = fresh_phi();
    let mut view = ShipView::new(&sheet()).unwrap();

    let o = run_frame(&mut clock, &mut phi, &mut view, 16, &vec![]);
    assert!(matches!(o, FrameOutcome::Presented { fps_report: None }));
    let rect = view.player.rect;
    let mid = view.player.sprites[3];
    assert_eq!(
        phi.renderer.commands,
        vec![
            DrawCmd::SetDrawColor { r: 0, g: 0, b: 0 },
            DrawCmd::Clear,
            DrawCmd::SetDrawColor { r: 200, g: 200, b: 50 },
            DrawCmd::FillRect { rect },
            DrawCmd::CopySprite { tex: mid.tex, src: mid.src, dest: rect },
        ]
    );
}

#[test]
fn early_frame_sleeps_and_runs_no_logic() {
    let mut clock = FrameClock::new(0);
    let mut phi = fresh_phi();
    let mut view = ShipView::new(&sheet()).unwrap();

    // Even with a quit request queued, a too-early call samples nothing.
    let o = run_frame(&mut clock, &mut phi, &mut view, 10, &vec![RawEvent::Quit]);
    assert!(matches!(o, FrameOutcome::Slept { wait_ms: 6 }));
    assert!(!phi.events.now.quit);
    assert_eq!(view.player.rect.x, 64);
}

#[test]
fn escape_quits_without_presenting() {
    let mut clock = FrameClock::new(0);
    let mut phi = fresh_phi();
    let mut view = ShipView::new(&sheet()).unwrap();

    let o = run_frame(
        &mut clock,
        &mut phi,
        &mut view,
        16,
        &vec![RawEvent::KeyDown(Key::Escape)],
    );
    assert!(matches!(o, FrameOutcome::Quit { .. }));
    assert!(phi.renderer.commands.is_empty());
    assert_eq!(view.player.rect.x, 64);
}

#[test]
fn quit_request_reaches_the_next_step() {
    let mut clock = FrameClock::new(0);
    let mut phi = fresh_phi();
    let mut view = ShipView::new(&sheet()).unwrap();

    // A quit-requested raw event in the frame's queue makes the step's
    // context report quit, independent of any key state.
    let o = run_frame(
        &mut clock,
        &mut phi,
        &mut view,
        16,
        &vec![RawEvent::KeyDown(Key::Left), RawEvent::Quit],
    );
    assert!(phi.events.now.quit);
    assert!(matches!(o, FrameOutcome::Quit { .. }));
}

struct ProbeView {
    id: i64,
    steps: u32,
}

impl GameView for ProbeView {
    // The specification items of the trait survive compilation as ordinary
    // trait items; they are never called at run time.
    fn step_req(self, _c: FrameCtx, _elapsed_ms: u64) -> bool {
        unreachable!()
    }

    fn step_state(self, _c: FrameCtx, _elapsed_ms: u64) -> ProbeView {
        unreachable!()
    }

    fn step_action(self, _c: FrameCtx, _elapsed_ms: u64) -> ViewAction<ProbeView> {
        unreachable!()
    }

    fn step_draws(self, _c: FrameCtx, _elapsed_ms: u64) -> Seq<DrawCmd> {
        unreachable!()
    }

    fn render(&mut self, context: &mut Phi, _elapsed_ms: u64) -> ViewAction<ProbeView> {
        self.steps += 1;
        context
            .renderer
            .fill_rect(Rectangle { x: self.id, y: 0, w: 1, h: 1 });
        if self.id == 1 {
            ViewAction::ChangeView(ProbeView { id: 2, steps: 0 })
        } else {
            ViewAction::Continue
        }
    }
}

#[test]
fn change_view_dispatches_the_next_frame_to_the_new_view() {
    let mut clock = FrameClock::new(0);
    let mut phi = fresh_phi();
    let mut view = ProbeView { id: 1, steps: 0 };

    // The first frame's view hands control to a new view: nothing is
    // presented for the discarded view.
    let o = run_frame(&mut clock, &mut phi, &mut view, 16, &vec![]);
    assert!(matches!(o, FrameOutcome::Switched { .. }));
    assert_eq!(view.id, 2);
    assert_eq!(view.steps, 0);

    // The next frame steps the new view, exactly once.
    let o2 = run_frame(&mut clock, &mut phi, &mut view, 32, &vec![]);
    assert!(matches!(o2, FrameOutcome::Presented { .. }));
    assert_eq!(view.steps, 1);
    assert_eq!(
        phi.renderer.commands,
        vec![DrawCmd::FillRect { rect: Rectangle { x: 2, y: 0, w: 1, h: 1 } }]
    );
}

#[test]
fn context_reports_the_output_size() {
    let phi = fresh_phi();
    assert_eq!(phi.output_size(), (800, 600));
}

#[test]
fn apply_action_follows_the_protocol() {
    let mut slot: i64 = 10;
    assert_eq!(apply_action(&mut slot, ViewAction::Continue), Resolution::Present);
    assert_eq!(slot, 10);
    assert_eq!(apply_action(&mut slot, ViewAction::ChangeView(77)), Resolution::Switch);
    assert_eq!(slot, 77);
    assert_eq!(apply_action(&mut slot, ViewAction::Quit), Resolution::Stop);
    assert_eq!(slot, 77);
}
