//! Sprites and rendering. A sprite names a rectangular sub-region of a
//! shared decoded image; the image itself (decoding, pixel storage, upload)
//! belongs to the platform, which identifies each decoded image by a handle.
//! The renderer records the narrow drawing interface the views use — clear,
//! set color, fill rectangle, copy a sprite region — as plain commands for
//! the platform to execute when the frame is presented.

use vstd::prelude::*;

use crate::data::Rectangle;

verus! {

/// Largest texture coordinate a sprite region may reach.
pub const TEX_LIMIT: i64 = 0x8000_0000;

/// A slice rectangle with texture-scale coordinates: small enough that
/// offsetting it by a sprite's origin cannot overflow.
pub open spec fn tex_bounded(rect: Rectangle) -> bool {
    &&& -TEX_LIMIT <= rect.x <= TEX_LIMIT
    &&& -TEX_LIMIT <= rect.y <= TEX_LIMIT
    &&& 0 <= rect.w <= TEX_LIMIT
    &&& 0 <= rect.h <= TEX_LIMIT
}

/// A rectangular sub-region (`src`) of the decoded image identified by
/// `tex`. Clones share the image; slicing never copies pixels.
#[derive(Clone, Copy, Debug, PartialEq, Eq, Structural)]
#[verifier::ext_equal]
pub struct Sprite {
    /// Platform handle of the shared decoded image.
    pub tex: usize,
    /// Which pixels of that image this sprite draws.
    pub src: Rectangle,
}

impl Sprite {
    /// The region lies in the image's first quadrant with bounded extent; a
    /// region cut from a well-formed sprite is again well-formed.
    pub open spec fn wf(self) -> bool {
        &&& 0 <= self.src.x
        &&& 0 <= self.src.y
        &&& 0 <= self.src.w
        &&& 0 <= self.src.h
        &&& self.src.x + self.src.w <= TEX_LIMIT
        &&& self.src.y + self.src.h <= TEX_LIMIT
    }

    /// The region `rect`, given relative to this sprite, in image
    /// coordinates.
    pub open spec fn absolute(self, rect: Rectangle) -> Rectangle {
        Rectangle {
            x: (rect.x + self.src.x) as i64,
            y: (rect.y + self.src.y) as i64,
            w: rect.w,
            h: rect.h,
        }
    }

    /// The sub-sprite cut by `rect`, or `None` when `rect` does not lie
    /// fully inside this sprite's region.
    pub open spec fn region_spec(self, rect: Rectangle) -> Option<Sprite> {
        if self.src.contains_spec(self.absolute(rect)) {
            Some(Sprite { tex: self.tex, src: self.absolute(rect) })
        } else {
            None
        }
    }

    /// Wrap a whole decoded image of size `w` by `h`.
    pub fn new(tex: usize, w: i64, h: i64) -> (s: Sprite)
        requires
            0 <= w <= TEX_LIMIT,
            0 <= h <= TEX_LIMIT,
        ensures
            s.wf(),
            s.tex == tex,
            s.src == (Rectangle { x: 0, y: 0, w, h }),
    {
        Sprite { tex, src: Rectangle { x: 0, y: 0, w, h } }
    }

    /// A new sprite for the sub-region `rect` of this one, `rect` being
    /// relative to this sprite's own origin; `None` exactly when the
    /// requested region is not fully inside it.
    pub fn region(&self, rect: Rectangle) -> (r: Option<Sprite>)
        requires
            self.wf(),
            tex_bounded(rect),
        ensures
            r == self.region_spec(rect),
            r is Some <==> self.src.contains_spec(self.absolute(rect)),
            r matches Some(s) ==> s.wf() && s.tex == self.tex && s.src == self.absolute(rect)
                && self.src.contains_spec(s.src),
    {
        let new_src = Rectangle { x: rect.x + self.src.x, y: rect.y + self.src.y, w: rect.w, h: rect.h };
        if self.src.contains(new_src) {
            Some(Sprite { tex: self.tex, src: new_src })
        } else {
            None
        }
    }

    /// The size of this sprite's region.
    pub fn size(&self) -> (s: (i64, i64))
        ensures
            s.0 == self.src.w,
            s.1 == self.src.h,
    {
        (self.src.w, self.src.h)
    }

    /// Record the drawing of this sprite's region into `dest`.
    pub fn render(&self, renderer: &mut Renderer, dest: Rectangle)
        ensures
            final(renderer).output_w == old(renderer).output_w,
            final(renderer).output_h == old(renderer).output_h,
            final(renderer).commands@ == old(renderer).commands@.push(
                DrawCmd::CopySprite { tex: self.tex, src: self.src, dest },
            ),
    {
        renderer.copy(self.tex, self.src, dest);
    }
}

/// Slicing a sub-sprite and then slicing a further sub-region from it, in
/// the sub-sprite's local coordinates, is the same as slicing the outer
/// sprite once with the composed rectangle, whenever both slices succeed.
pub proof fn lemma_region_compose(s: Sprite, r1: Rectangle, r2: Rectangle)
    requires
        s.wf(),
        tex_bounded(r1),
        tex_bounded(r2),
        s.region_spec(r1) matches Some(s1) && s1.region_spec(r2) is Some,
    ensures
        s.region_spec(r1).unwrap().region_spec(r2) == s.region_spec(
            Rectangle { x: (r1.x + r2.x) as i64, y: (r1.y + r2.y) as i64, w: r2.w, h: r2.h },
        ),
{
    let s1 = s.region_spec(r1).unwrap();
    let combined = Rectangle { x: (r1.x + r2.x) as i64, y: (r1.y + r2.y) as i64, w: r2.w, h: r2.h };
    assert(s1.absolute(r2) == s.absolute(combined));
    assert(s.src.contains_spec(s.absolute(combined))) by {
        crate::data::lemma_contains_transitive(s.src, s1.src, s1.absolute(r2));
    }
}

/// One recorded drawing command, executed by the platform at present time.
#[derive(Clone, Copy, Debug, PartialEq, Eq, Structural)]
pub enum DrawCmd {
    SetDrawColor { r: u8, g: u8, b: u8 },
    Clear,
    FillRect { rect: Rectangle },
    CopySprite { tex: usize, src: Rectangle, dest: Rectangle },
}

/// The drawing surface the views see: the current logical output size and
/// the commands recorded for the frame being built.
#[verifier::ext_equal]
pub struct Renderer {
    /// Logical output width in pixels.
    pub output_w: u32,
    /// Logical output height in pixels.
    pub output_h: u32,
    /// The commands of the frame being built, in order.
    pub commands: Vec<DrawCmd>,
}

impl Renderer {
    /// A renderer for an output of `w` by `h` pixels, with no commands yet.
    pub fn new(w: u32, h: u32) -> (r: Renderer)
        ensures
            r.output_w == w,
            r.output_h == h,
            r.commands@ =~= Seq::<DrawCmd>::empty(),
    {
        Renderer { output_w: w, output_h: h, commands: Vec::new() }
    }

    /// Forget the previous frame's commands.
    pub fn begin_frame(&mut self)
        ensures
            final(self).output_w == old(self).output_w,
            final(self).output_h == old(self).output_h,
            final(self).commands@ =~= Seq::<DrawCmd>::empty(),
    {
        self.commands.clear();
    }

    /// Record a change of draw color.
    pub fn set_draw_color(&mut self, r: u8, g: u8, b: u8)
        ensures
            final(self).output_w == old(self).output_w,
            final(self).output_h == old(self).output_h,
            final(self).commands@ == old(self).commands@.push(DrawCmd::SetDrawColor { r, g, b }),
    {
        self.commands.push(DrawCmd::SetDrawColor { r, g, b });
    }

    /// Record a clear of the whole frame.
    pub fn clear(&mut self)
        ensures
            final(self).output_w == old(self).output_w,
            final(self).output_h == old(self).output_h,
            final(self).commands@ == old(self).commands@.push(DrawCmd::Clear),
    {
        self.commands.push(DrawCmd::Clear);
    }

    /// Record a filled rectangle in the current draw color.
    pub fn fill_rect(&mut self, rect: Rectangle)
        ensures
            final(self).output_w == old(self).output_w,
            final(self).output_h == old(self).output_h,
            final(self).commands@ == old(self).commands@.push(DrawCmd::FillRect { rect }),
    {
        self.commands.push(DrawCmd::FillRect { rect });
    }

    /// Record the copy of an image region into `dest`.
    pub fn copy(&mut self, tex: usize, src: Rectangle, dest: Rectangle)
        ensures
            final(self).output_w == old(self).output_w,
            final(self).output_h == old(self).output_h,
            final(self).commands@ == old(self).commands@.push(
                DrawCmd::CopySprite { tex, src, dest },
            ),
    {
        self.commands.push(DrawCmd::CopySprite { tex, src, dest });
    }

    /// The logical output size in pixels.
    pub fn output_size(&self) -> (s: (u32, u32))
        ensures
            s.0 == self.output_w,
            s.1 == self.output_h,
    {
        (self.output_w, self.output_h)
    }
}

/// Anything that can draw a sprite into a destination rectangle.
pub trait CopySprite {
    fn copy_sprite(&mut self, sprite: &Sprite, dest: Rectangle);
}

impl CopySprite for Renderer {
    fn copy_sprite(&mut self, sprite: &Sprite, dest: Rectangle) {
        sprite.render(self, dest);
    }
}

} // verus!
