//! The pixel buffer and its depth buffer.

use vstd::prelude::*;
use crate::color::{packed, Color};
use crate::fixed::Fixed;

verus! {

/// The packed color that a new framebuffer holds in every pixel.
pub const BLANK: u32 = 0;

/// The depth that marks a pixel as holding nothing yet: 1.0, the far plane.
pub const FAR_DEPTH: Fixed = 65536;

/// A grid of packed colors with one depth value per pixel, row by row from
/// the top.
pub struct Framebuffer {
    pub width: usize,
    pub height: usize,
    /// One value `0x00RRGGBB` per pixel.
    pub buffer: Vec<u32>,
    /// The depth of what each pixel shows; lower is nearer.
    pub depth_buffer: Vec<Fixed>,
    /// The color that `clear` fills the buffer with.
    pub background_color: Color,
}

/// What a framebuffer holds, as mathematical values.
pub struct Canvas {
    pub width: nat,
    pub height: nat,
    pub colors: Seq<u32>,
    pub depths: Seq<Fixed>,
    pub background: Color,
}

impl Canvas {
    /// Both buffers have one entry per pixel.
    pub open spec fn wf(self) -> bool {
        &&& self.colors.len() == self.width * self.height
        &&& self.depths.len() == self.width * self.height
    }

    /// The pixel `(x, y)` lies on the canvas.
    pub open spec fn contains(self, x: int, y: int) -> bool {
        0 <= x < self.width && 0 <= y < self.height
    }

    /// Position of the pixel `(x, y)` in the two buffers.
    pub open spec fn offset(self, x: int, y: int) -> int {
        y * self.width + x
    }

    /// The packed color of the pixel `(x, y)`.
    pub open spec fn color_at(self, x: int, y: int) -> u32
        recommends
            self.contains(x, y),
    {
        self.colors[self.offset(x, y)]
    }

    /// The stored depth of the pixel `(x, y)`.
    pub open spec fn depth_at(self, x: int, y: int) -> Fixed
        recommends
            self.contains(x, y),
    {
        self.depths[self.offset(x, y)]
    }

    /// The canvas after an unconditional write of `color` to `(x, y)`: the
    /// pixel's color changes, its depth does not, and a pixel off the canvas
    /// changes nothing.
    pub open spec fn plot(self, x: int, y: int, color: Color) -> Canvas {
        if self.contains(x, y) {
            Canvas {
                colors: self.colors.update(self.offset(x, y), packed(color) as u32),
                ..self
            }
        } else {
            self
        }
    }

    /// A write of `depth` to `(x, y)` passes the depth test: the pixel is on
    /// the canvas and `depth` is strictly nearer than what is stored.
    pub open spec fn passes(self, x: int, y: int, depth: Fixed) -> bool {
        self.contains(x, y) && depth < self.depth_at(x, y)
    }

    /// The canvas after a depth-tested write: color and depth of the pixel
    /// change together where the test passes, and nothing changes otherwise.
    pub open spec fn plot_with_depth(self, x: int, y: int, depth: Fixed, color: Color) -> Canvas {
        if self.passes(x, y, depth) {
            Canvas {
                colors: self.colors.update(self.offset(x, y), packed(color) as u32),
                depths: self.depths.update(self.offset(x, y), depth),
                ..self
            }
        } else {
            self
        }
    }

    /// The canvas with every pixel set to the background color at the far
    /// depth.
    pub open spec fn cleared(self) -> Canvas {
        Canvas {
            colors: Seq::new(self.width * self.height, |i: int| packed(self.background) as u32),
            depths: Seq::new(self.width * self.height, |i: int| FAR_DEPTH),
            ..self
        }
    }
}

/// Pixels on the canvas have their own place in the buffers: offsets are in
/// range, and two pixels share an offset only if they are the same pixel.
pub proof fn lemma_offset(width: nat, height: nat, x: int, y: int)
    requires
        0 <= x < width,
        0 <= y < height,
    ensures
        0 <= y * width <= y * width + x < width * height,
        forall|x2: int, y2: int|
            0 <= x2 < width && 0 <= y2 < height && (x2 != x || y2 != y) ==> #[trigger] (y2 * width
                + x2) != y * width + x,
{
    let w: int = width as int;
    assert(0 <= y * w && y * w + w <= height * w) by (nonlinear_arith)
        requires
            0 <= y < height,
            0 <= w,
    ;
    assert(height * w == width * height) by (nonlinear_arith)
        requires
            w == width,
    ;
    assert forall|x2: int, y2: int|
        0 <= x2 < width && 0 <= y2 < height && (x2 != x || y2 != y) implies #[trigger] (y2 * width
        + x2) != y * width + x by {
        if y2 < y {
            assert(y2 * w + w <= y * w) by (nonlinear_arith)
                requires
                    y2 + 1 <= y,
                    0 <= w,
            ;
        } else if y2 > y {
            assert(y * w + w <= y2 * w) by (nonlinear_arith)
                requires
                    y + 1 <= y2,
                    0 <= w,
            ;
        }
    }
}

/// The pixel `(x, y)` holds the same color and depth on both canvases.
pub open spec fn same_pixel(before: Canvas, after: Canvas, x: int, y: int) -> bool {
    after.color_at(x, y) == before.color_at(x, y) && after.depth_at(x, y) == before.depth_at(x, y)
}

/// The pixel `(x, y)` of `after` is what a depth-tested write of `depth`
/// and `color` makes of the pixel of `before`.
pub open spec fn written_pixel(
    before: Canvas,
    after: Canvas,
    x: int,
    y: int,
    depth: Fixed,
    color: Color,
) -> bool {
    if depth < before.depth_at(x, y) {
        after.color_at(x, y) == packed(color) && after.depth_at(x, y) == depth
    } else {
        same_pixel(before, after, x, y)
    }
}

/// A depth-tested write changes at most the pixel it names, and that one as
/// the depth test says.
pub proof fn lemma_plot_with_depth_pixels(c: Canvas, x: int, y: int, depth: Fixed, color: Color)
    requires
        c.wf(),
    ensures
        ({
            let r = c.plot_with_depth(x, y, depth, color);
            &&& r.wf()
            &&& r.width == c.width
            &&& r.height == c.height
            &&& r.background == c.background
            &&& c.contains(x, y) ==> written_pixel(c, r, x, y, depth, color)
            &&& forall|px: int, py: int|
                c.contains(px, py) && !(px == x && py == y) ==> #[trigger] r.color_at(px, py)
                    == c.color_at(px, py)
            &&& forall|px: int, py: int|
                c.contains(px, py) && !(px == x && py == y) ==> #[trigger] r.depth_at(px, py)
                    == c.depth_at(px, py)
        }),
{
    if c.contains(x, y) {
        lemma_offset(c.width, c.height, x, y);
        let r = c.plot_with_depth(x, y, depth, color);
        assert forall|px: int, py: int|
            c.contains(px, py) && !(px == x && py == y) implies #[trigger] r.color_at(px, py)
            == c.color_at(px, py) by {
            lemma_offset(c.width, c.height, px, py);
        }
        assert forall|px: int, py: int|
            c.contains(px, py) && !(px == x && py == y) implies #[trigger] r.depth_at(px, py)
            == c.depth_at(px, py) by {
            lemma_offset(c.width, c.height, px, py);
        }
    }
}

/// An unconditional write changes the color of the pixel it names and
/// nothing else.
pub proof fn lemma_plot_pixels(c: Canvas, x: int, y: int, color: Color)
    requires
        c.wf(),
    ensures
        ({
            let r = c.plot(x, y, color);
            &&& r.wf()
            &&& r.width == c.width
            &&& r.height == c.height
            &&& r.background == c.background
            &&& r.depths == c.depths
            &&& c.contains(x, y) ==> r.color_at(x, y) == packed(color)
            &&& forall|px: int, py: int|
                c.contains(px, py) && !(px == x && py == y) ==> #[trigger] r.color_at(px, py)
                    == c.color_at(px, py)
        }),
{
    if c.contains(x, y) {
        lemma_offset(c.width, c.height, x, y);
        let r = c.plot(x, y, color);
        assert forall|px: int, py: int|
            c.contains(px, py) && !(px == x && py == y) implies #[trigger] r.color_at(px, py)
            == c.color_at(px, py) by {
            lemma_offset(c.width, c.height, px, py);
        }
    }
}

/// A depth-tested write repeated with the same arguments changes nothing
/// the second time.
pub proof fn lemma_depth_write_idempotent(c: Canvas, x: int, y: int, depth: Fixed, color: Color)
    requires
        c.wf(),
    ensures
        c.plot_with_depth(x, y, depth, color).plot_with_depth(x, y, depth, color)
            == c.plot_with_depth(x, y, depth, color),
{
    if c.contains(x, y) {
        lemma_offset(c.width, c.height, x, y);
    }
}

/// Two depth-tested writes to one pixel with different depths give the same
/// canvas in either order, and where the nearer of them passes the test on
/// the canvas as it was, the pixel ends with the nearer write's color and
/// depth.
pub proof fn lemma_depth_write_order(
    c: Canvas,
    x: int,
    y: int,
    near: Fixed,
    near_color: Color,
    far: Fixed,
    far_color: Color,
)
    requires
        c.wf(),
        near < far,
    ensures
        c.plot_with_depth(x, y, near, near_color).plot_with_depth(x, y, far, far_color)
            == c.plot_with_depth(x, y, far, far_color).plot_with_depth(x, y, near, near_color),
        c.passes(x, y, near) ==> {
            let last = c.plot_with_depth(x, y, far, far_color).plot_with_depth(
                x,
                y,
                near,
                near_color,
            );
            &&& last.color_at(x, y) == packed(near_color)
            &&& last.depth_at(x, y) == near
        },
{
    if c.contains(x, y) {
        lemma_offset(c.width, c.height, x, y);
        let first = c.plot_with_depth(x, y, near, near_color).plot_with_depth(x, y, far, far_color);
        let second = c.plot_with_depth(x, y, far, far_color).plot_with_depth(
            x,
            y,
            near,
            near_color,
        );
        assert(first.colors =~= second.colors);
        assert(first.depths =~= second.depths);
    }
}

/// Two depth-tested writes to one pixel with different depths leave the
/// pixel the same in either order, whatever else the two sequences of
/// canvases hold, and where the nearer of them passes the test at the
/// start, the pixel ends with the nearer write's color and depth.
pub proof fn lemma_written_pixel_order(
    start: Canvas,
    near_first: Canvas,
    near_then_far: Canvas,
    far_first: Canvas,
    far_then_near: Canvas,
    x: int,
    y: int,
    near: Fixed,
    near_color: Color,
    far: Fixed,
    far_color: Color,
)
    requires
        near < far,
        written_pixel(start, near_first, x, y, near, near_color),
        written_pixel(near_first, near_then_far, x, y, far, far_color),
        written_pixel(start, far_first, x, y, far, far_color),
        written_pixel(far_first, far_then_near, x, y, near, near_color),
    ensures
        same_pixel(near_then_far, far_then_near, x, y),
        near < start.depth_at(x, y) ==> far_then_near.color_at(x, y) == packed(near_color)
            && far_then_near.depth_at(x, y) == near,
{
}

/// A pixel that has had a depth-tested write is no farther away than it
/// was.
pub proof fn lemma_written_pixel_no_farther(
    before: Canvas,
    after: Canvas,
    x: int,
    y: int,
    depth: Fixed,
    color: Color,
)
    requires
        written_pixel(before, after, x, y, depth, color),
    ensures
        after.depth_at(x, y) <= before.depth_at(x, y),
{
}

/// Depth-tested writes never move a pixel farther away.
pub proof fn lemma_depth_never_recedes(c: Canvas, x: int, y: int, depth: Fixed, color: Color, px: int, py: int)
    requires
        c.wf(),
        c.contains(px, py),
    ensures
        c.plot_with_depth(x, y, depth, color).depth_at(px, py) <= c.depth_at(px, py),
{
    if c.contains(x, y) {
        lemma_offset(c.width, c.height, x, y);
        lemma_offset(c.width, c.height, px, py);
    }
}

impl View for Framebuffer {
    type V = Canvas;

    open spec fn view(&self) -> Canvas {
        Canvas {
            width: self.width as nat,
            height: self.height as nat,
            colors: self.buffer@,
            depths: self.depth_buffer@,
            background: self.background_color,
        }
    }
}

impl Framebuffer {
    /// The two buffers have one entry per pixel.
    pub open spec fn wf(&self) -> bool {
        self@.wf()
    }

    /// A framebuffer of `width` by `height` pixels, all blank and at the far
    /// depth, with the dark default background.
    pub fn new(width: usize, height: usize) -> (fb: Framebuffer)
        requires
            width * height <= usize::MAX,
        ensures
            fb.wf(),
            fb@.width == width,
            fb@.height == height,
            fb@.colors == Seq::new((width * height) as nat, |i: int| BLANK),
            fb@.depths == Seq::new((width * height) as nat, |i: int| FAR_DEPTH),
            fb@.background == (Color { r: 5, g: 5, b: 15 }),
    {
        let n: usize = width * height;
        let buffer: Vec<u32> = vec![0u32; n];
        let depth_buffer: Vec<Fixed> = vec![65536i32; n];
        let fb = Framebuffer {
            width,
            height,
            buffer,
            depth_buffer,
            background_color: Color::dark_bg(),
        };
        assert(fb@.colors =~= Seq::new((width * height) as nat, |i: int| BLANK));
        assert(fb@.depths =~= Seq::new((width * height) as nat, |i: int| FAR_DEPTH));
        fb
    }

    /// Sets every pixel to the background color and every depth to the far
    /// depth.
    pub fn clear(&mut self)
        requires
            old(self).wf(),
        ensures
            final(self)@ == old(self)@.cleared(),
            final(self).wf(),
    {
        let bg_hex: u32 = self.background_color.to_hex();
        let n: usize = self.buffer.len();
        let mut i: usize = 0;
        while i < n
            invariant
                i <= n,
                n == self.buffer.len(),
                n == self.depth_buffer.len(),
                n == self.width * self.height,
                self.width == old(self).width,
                self.height == old(self).height,
                self.background_color == old(self).background_color,
                bg_hex == packed(self.background_color),
                forall|j: int| 0 <= j < i ==> self.buffer@[j] == bg_hex,
                forall|j: int| 0 <= j < i ==> self.depth_buffer@[j] == FAR_DEPTH,
            decreases n - i,
        {
            self.buffer.set(i, bg_hex);
            self.depth_buffer.set(i, 65536);
            i += 1;
        }
        assert(self@.colors =~= old(self)@.cleared().colors);
        assert(self@.depths =~= old(self)@.cleared().depths);
    }

    /// Writes `color` to the pixel `(x, y)` without a depth test and without
    /// touching its depth. A pixel outside the buffer is left out silently.
    pub fn point(&mut self, x: usize, y: usize, color: &Color)
        requires
            old(self).wf(),
        ensures
            final(self)@ == old(self)@.plot(x as int, y as int, *color),
            final(self).wf(),
    {
        if x < self.width && y < self.height {
            proof {
                lemma_offset(self.width as nat, self.height as nat, x as int, y as int);
                assert(self.buffer.len() == self.width * self.height);
            }
            let index: usize = y * self.width + x;
            self.buffer.set(index, color.to_hex());
        }
    }

    /// Writes `color` and `depth` to the pixel `(x, y)` if `depth` is
    /// strictly nearer than the depth stored there. A pixel outside the
    /// buffer is left out silently.
    pub fn point_with_depth(&mut self, x: usize, y: usize, depth: Fixed, color: &Color)
        requires
            old(self).wf(),
        ensures
            final(self)@ == old(self)@.plot_with_depth(x as int, y as int, depth, *color),
            final(self).wf(),
    {
        if x < self.width && y < self.height {
            proof {
                lemma_offset(self.width as nat, self.height as nat, x as int, y as int);
                assert(self.buffer.len() == self.width * self.height);
            }
            let index: usize = y * self.width + x;
            if depth < self.depth_buffer[index] {
                self.buffer.set(index, color.to_hex());
                self.depth_buffer.set(index, depth);
            }
        }
    }

    /// Sets the color that `clear` fills the buffer with.
    pub fn set_background_color(&mut self, color: Color)
        ensures
            final(self)@ == (Canvas { background: color, ..old(self)@ }),
    {
        self.background_color = color;
    }
}

} // verus!
