//! The gameplay screen: a player ship cut from a sprite sheet, moved by the
//! arrow keys and kept inside the left portion of the screen.

use vstd::prelude::*;

use crate::data::Rectangle;
use crate::events::{key_index_spec, Key, KeyEdge};
use crate::gfx::{DrawCmd, Sprite};
use crate::phi::{FrameCtx, GameView, Phi, ViewAction};

verus! {

/// Pixels traversed per second when the ship is moving.
pub const PLAYER_SPEED: i64 = 180;

/// Width of one ship frame on the sprite sheet.
pub const SHIP_W: i64 = 43;

/// Height of one ship frame on the sprite sheet.
pub const SHIP_H: i64 = 39;

/// Diagonal movement is scaled by `707 / 1000`, close to one over the
/// square root of two, so the ship is not faster on diagonals.
pub const DIAGONAL_NUM: i64 = 707;

pub const DIAGONAL_DEN: i64 = 1000;

/// Longest elapsed time one frame accepts, in milliseconds.
pub const MAX_FRAME_MS: u64 = 0x4000_0000;

/// The cells of the three-by-three ship sprite sheet, row by row: the
/// vertical attitude and the engine state.
#[derive(Clone, Copy, Debug, PartialEq, Eq, Structural)]
pub enum ShipFrame {
    UpNorm,
    UpFast,
    UpSlow,
    MidNorm,
    MidFast,
    MidSlow,
    DownNorm,
    DownFast,
    DownSlow,
}

pub open spec fn frame_index_spec(f: ShipFrame) -> int {
    match f {
        ShipFrame::UpNorm => 0,
        ShipFrame::UpFast => 1,
        ShipFrame::UpSlow => 2,
        ShipFrame::MidNorm => 3,
        ShipFrame::MidFast => 4,
        ShipFrame::MidSlow => 5,
        ShipFrame::DownNorm => 6,
        ShipFrame::DownFast => 7,
        ShipFrame::DownSlow => 8,
    }
}

pub fn frame_index(f: ShipFrame) -> (i: usize)
    ensures
        i as int == frame_index_spec(f),
        i < 9,
{
    match f {
        ShipFrame::UpNorm => 0,
        ShipFrame::UpFast => 1,
        ShipFrame::UpSlow => 2,
        ShipFrame::MidNorm => 3,
        ShipFrame::MidFast => 4,
        ShipFrame::MidSlow => 5,
        ShipFrame::DownNorm => 6,
        ShipFrame::DownFast => 7,
        ShipFrame::DownSlow => 8,
    }
}

/// Is `k` held in this frame's context?
pub open spec fn held(c: FrameCtx, k: Key) -> bool {
    c.held[key_index_spec(k)]
}

/// The frame asks to leave: a quit request, or escape just pressed.
pub open spec fn wants_quit(c: FrameCtx) -> bool {
    c.quit || c.edges[key_index_spec(Key::Escape)] == KeyEdge::JustPressed
}

/// Exactly one vertical and one horizontal key held.
pub open spec fn diagonal(c: FrameCtx) -> bool {
    (held(c, Key::Up) != held(c, Key::Down)) && (held(c, Key::Left) != held(c, Key::Right))
}

/// Pixels per axis a straight move covers in `elapsed_ms`.
pub open spec fn base_step(elapsed_ms: u64) -> int {
    PLAYER_SPEED * elapsed_ms / 1000
}

/// Pixels per axis the ship moves this frame.
pub open spec fn moved_amount(c: FrameCtx, elapsed_ms: u64) -> int {
    if diagonal(c) {
        base_step(elapsed_ms) * (DIAGONAL_NUM as int) / (DIAGONAL_DEN as int)
    } else {
        base_step(elapsed_ms)
    }
}

/// Horizontal displacement: opposing or idle keys cancel.
pub open spec fn dx_of(c: FrameCtx, elapsed_ms: u64) -> int {
    if held(c, Key::Left) == held(c, Key::Right) {
        0
    } else if held(c, Key::Left) {
        -moved_amount(c, elapsed_ms)
    } else {
        moved_amount(c, elapsed_ms)
    }
}

/// Vertical displacement: up is negative.
pub open spec fn dy_of(c: FrameCtx, elapsed_ms: u64) -> int {
    if held(c, Key::Up) == held(c, Key::Down) {
        0
    } else if held(c, Key::Up) {
        -moved_amount(c, elapsed_ms)
    } else {
        moved_amount(c, elapsed_ms)
    }
}

/// The region the ship may occupy: the left seven tenths of the output
/// width, at full output height.
pub open spec fn movable_region(c: FrameCtx) -> Rectangle {
    Rectangle { x: 0, y: 0, w: (c.out_w * 7 / 10) as i64, h: c.out_h as i64 }
}

/// The player ship: its on-screen rectangle, the sheet's nine frames, and
/// which frame is showing.
#[verifier::ext_equal]
pub struct Ship {
    pub rect: Rectangle,
    pub sprites: Vec<Sprite>,
    pub current: ShipFrame,
}

/// The gameplay view.
#[verifier::ext_equal]
pub struct ShipView {
    pub player: Ship,
}

/// The sheet cell a sprite index names, in the sheet's own coordinates.
pub open spec fn cell_rect(i: int) -> Rectangle {
    Rectangle {
        x: (SHIP_W * (i % 3)) as i64,
        y: (SHIP_H * (i / 3)) as i64,
        w: SHIP_W,
        h: SHIP_H,
    }
}

impl ShipView {
    /// Nine sheet frames, and a ship rectangle small enough to move without
    /// overflow.
    pub open spec fn wf(self) -> bool {
        &&& self.player.sprites@.len() == 9
        &&& 0 <= self.player.rect.w <= 0x8000_0000
        &&& 0 <= self.player.rect.h <= 0x8000_0000
        &&& -0x1_0000_0000_0000 <= self.player.rect.x <= 0x1_0000_0000_0000
        &&& -0x1_0000_0000_0000 <= self.player.rect.y <= 0x1_0000_0000_0000
    }

    /// The ship rectangle after this frame's displacement, before clamping.
    pub open spec fn moved_rect(self, c: FrameCtx, elapsed_ms: u64) -> Rectangle {
        Rectangle {
            x: (self.player.rect.x + dx_of(c, elapsed_ms)) as i64,
            y: (self.player.rect.y + dy_of(c, elapsed_ms)) as i64,
            w: self.player.rect.w,
            h: self.player.rect.h,
        }
    }

    /// The ship rectangle after this frame: displaced, then clamped inside
    /// the movable region.
    pub open spec fn next_rect(self, c: FrameCtx, elapsed_ms: u64) -> Rectangle {
        self.moved_rect(c, elapsed_ms).move_inside_spec(movable_region(c)).unwrap()
    }

    /// Build the gameplay view from the ship sprite sheet: cut the nine
    /// frames, row by row, and start the ship at the fixed spawn position.
    /// `None` exactly when the sheet is too small for the three-by-three
    /// grid of cells.
    pub fn new(spritesheet: &Sprite) -> (r: Option<ShipView>)
        requires
            spritesheet.wf(),
        ensures
            r is Some <==> (spritesheet.src.w >= 3 * SHIP_W && spritesheet.src.h >= 3 * SHIP_H),
            r matches Some(v) ==> {
                &&& v.wf()
                &&& v.player.rect == (Rectangle { x: 64, y: 64, w: SHIP_W, h: SHIP_H })
                &&& v.player.current == ShipFrame::MidNorm
                &&& forall|i: int| 0 <= i < 9 ==> #[trigger] v.player.sprites@[i]
                    == spritesheet.region_spec(cell_rect(i)).unwrap()
            },
    {
        let mut sprites: Vec<Sprite> = Vec::new();
        let mut i: usize = 0;
        while i < 9
            invariant
                i <= 9,
                spritesheet.wf(),
                sprites@.len() == i as int,
                forall|j: int| 0 <= j < i ==> (#[trigger] spritesheet.region_spec(cell_rect(j)))
                    is Some && sprites@[j] == spritesheet.region_spec(cell_rect(j)).unwrap(),
            decreases 9 - i,
        {
            let cell = Rectangle {
                x: SHIP_W * ((i % 3) as i64),
                y: SHIP_H * ((i / 3) as i64),
                w: SHIP_W,
                h: SHIP_H,
            };
            proof {
                assert(cell == cell_rect(i as int));
            }
            match spritesheet.region(cell) {
                Some(s) => sprites.push(s),
                None => {
                    proof {
                        assert(!spritesheet.src.contains_spec(spritesheet.absolute(cell)));
                        assert(cell.x + SHIP_W <= 3 * SHIP_W && cell.y + SHIP_H <= 3 * SHIP_H);
                        assert(spritesheet.src.w < 3 * SHIP_W || spritesheet.src.h < 3 * SHIP_H);
                    }
                    return None;
                },
            }
            i = i + 1;
        }
        assert(spritesheet.region_spec(cell_rect(8)) is Some);
        Some(
            ShipView {
                player: Ship {
                    rect: Rectangle { x: 64, y: 64, w: SHIP_W, h: SHIP_H },
                    sprites,
                    current: ShipFrame::MidNorm,
                },
            },
        )
    }
}

/// A step leaves the view able to step again: the clamped ship rectangle
/// keeps its extent and stays within coordinates the next frame accepts.
pub proof fn lemma_ship_step_preserves_wf(v: ShipView, c: FrameCtx, elapsed_ms: u64)
    requires
        v.step_req(c, elapsed_ms),
    ensures
        v.step_state(c, elapsed_ms).wf(),
{
}

impl GameView for ShipView {
    /// The view steps when its state is well formed, the elapsed time is
    /// sane, and — unless this frame quits — the ship fits in the movable
    /// region; a ship too large for the screen is a fatal misconfiguration
    /// the embedder must rule out before stepping.
    open spec fn step_req(self, c: FrameCtx, elapsed_ms: u64) -> bool {
        &&& c.wf()
        &&& self.wf()
        &&& elapsed_ms <= MAX_FRAME_MS
        &&& (wants_quit(c) || (self.player.rect.w <= movable_region(c).w && self.player.rect.h
            <= movable_region(c).h))
    }

    open spec fn step_state(self, c: FrameCtx, elapsed_ms: u64) -> ShipView {
        if wants_quit(c) {
            self
        } else {
            ShipView { player: Ship { rect: self.next_rect(c, elapsed_ms), ..self.player } }
        }
    }

    open spec fn step_action(self, c: FrameCtx, elapsed_ms: u64) -> ViewAction<ShipView> {
        if wants_quit(c) {
            ViewAction::Quit
        } else {
            ViewAction::Continue
        }
    }

    open spec fn step_draws(self, c: FrameCtx, elapsed_ms: u64) -> Seq<DrawCmd> {
        if wants_quit(c) {
            Seq::empty()
        } else {
            let r = self.next_rect(c, elapsed_ms);
            let s = self.player.sprites@[frame_index_spec(self.player.current)];
            seq![
                DrawCmd::SetDrawColor { r: 0, g: 0, b: 0 },
                DrawCmd::Clear,
                DrawCmd::SetDrawColor { r: 200, g: 200, b: 50 },
                DrawCmd::FillRect { rect: r },
                DrawCmd::CopySprite { tex: s.tex, src: s.src, dest: r },
            ]
        }
    }

    /// One frame: leave on a quit request or escape, otherwise move the
    /// ship by the held arrow keys, clamp it on screen, and draw the
    /// bounding box and the current sheet frame.
    fn render(&mut self, context: &mut Phi, elapsed_ms: u64) -> (a: ViewAction<ShipView>) {
        let ghost c = context.ctx();
        let quit_requested = context.events.now.quit;
        let escape = context.events.now.key_edge(Key::Escape);
        if quit_requested || matches!(escape, KeyEdge::JustPressed) {
            proof {
                assert(context.renderer.commands@ =~= context.renderer.commands@ + Seq::<
                    DrawCmd,
                >::empty());
            }
            return ViewAction::Quit;
        }
        let up = context.events.is_held(Key::Up);
        let down = context.events.is_held(Key::Down);
        let left = context.events.is_held(Key::Left);
        let right = context.events.is_held(Key::Right);

        let diag = (up != down) && (left != right);
        let base = ((PLAYER_SPEED as u64) * elapsed_ms / 1000) as i64;
        let moved: i64 = if diag {
            base * DIAGONAL_NUM / DIAGONAL_DEN
        } else {
            base
        };
        let dx: i64 = if left == right {
            0
        } else if left {
            -moved
        } else {
            moved
        };
        let dy: i64 = if up == down {
            0
        } else if up {
            -moved
        } else {
            moved
        };
        self.player.rect.x = self.player.rect.x + dx;
        self.player.rect.y = self.player.rect.y + dy;

        let out = context.output_size();
        let movable = Rectangle {
            x: 0,
            y: 0,
            w: ((out.0 as u64) * 7 / 10) as i64,
            h: out.1 as i64,
        };
        proof {
            assert(movable == movable_region(c));
            assert(self.player.rect == old(self).moved_rect(c, elapsed_ms));
        }
        self.player.rect = self.player.rect.move_inside(movable).unwrap();

        let ghost cmds0 = context.renderer.commands@;
        context.renderer.set_draw_color(0, 0, 0);
        context.renderer.clear();
        context.renderer.set_draw_color(200, 200, 50);
        context.renderer.fill_rect(self.player.rect);
        let idx = frame_index(self.player.current);
        let sprite = self.player.sprites[idx];
        sprite.render(&mut context.renderer, self.player.rect);
        proof {
            assert(*self =~= old(self).step_state(c, elapsed_ms));
            assert(context.renderer.commands@ =~= cmds0 + old(self).step_draws(c, elapsed_ms));
        }
        ViewAction::Continue
    }
}

} // verus!
