//! The pixel and depth store.
//!
//! The depth buffer is accepting-on-lesser: a write lands only when the
//! incoming depth is strictly nearer than the stored one, so on equal depths
//! the first writer wins. The debug line primitive ignores the depth buffer
//! entirely.

use vstd::prelude::*;
use vstd::arithmetic::div_mod::{
    lemma_div_pos_is_pos, lemma_div_is_ordered, lemma_div_multiples_vanish_fancy,
};
use crate::raster::MAX_DIM;

verus! {

/// The far sentinel every depth cell is reset to.
pub const FAR_DEPTH: i64 = i64::MAX;

/// Line endpoints beyond this bound draw nothing; it is far outside any
/// addressable render target, and keeps the integer stepping exact.
pub const LINE_LIMIT: usize = 0x100000;

/// A row-major pixel index stays inside the buffer.
pub proof fn lemma_rowmajor_bound(x: int, y: int, w: int, h: int)
    by (nonlinear_arith)
    requires
        0 <= x < w,
        0 <= y < h,
    ensures
        0 <= y * w + x < w * h,
{
}

/// Row-major indexing is injective over in-bounds pixels.
proof fn lemma_rowmajor_inj(x1: int, y1: int, x2: int, y2: int, w: int)
    by (nonlinear_arith)
    requires
        0 <= x1 < w,
        0 <= x2 < w,
        0 <= y1,
        0 <= y2,
        y1 * w + x1 == y2 * w + x2,
    ensures
        x1 == x2,
        y1 == y2,
{
}

/// The color and depth planes of a framebuffer, as one ghost value the
/// write operations fold over.
pub ghost struct FbState {
    pub colors: Seq<u32>,
    pub depths: Seq<i64>,
}

/// What one depth-tested point write does to the planes: nothing when the
/// pixel is out of bounds or the incoming depth is not strictly nearer;
/// otherwise both cells are overwritten.
pub open spec fn point_upd(
    st: FbState,
    width: int,
    height: int,
    color: u32,
    x: int,
    y: int,
    depth: i64,
) -> FbState {
    if 0 <= x < width && 0 <= y < height && depth < st.depths[y * width + x] {
        FbState {
            colors: st.colors.update(y * width + x, color),
            depths: st.depths.update(y * width + x, depth),
        }
    } else {
        st
    }
}

/// The software render target: a packed color per pixel, a depth scalar per
/// pixel, the clear color and the draw-color register.
pub struct Framebuffer {
    pub width: usize,
    pub height: usize,
    pub buffer: Vec<u32>,
    pub zbuffer: Vec<i64>,
    pub background_color: u32,
    pub current_color: u32,
}

impl Framebuffer {
    /// Both planes hold one cell per pixel and the target fits the
    /// rasterizer's addressable range.
    pub open spec fn wf(self) -> bool {
        &&& self.buffer@.len() == self.width * self.height
        &&& self.zbuffer@.len() == self.width * self.height
        &&& self.width <= MAX_DIM
        &&& self.height <= MAX_DIM
    }

    /// The framebuffer's planes as one ghost state.
    pub open spec fn state(self) -> FbState {
        FbState { colors: self.buffer@, depths: self.zbuffer@ }
    }

    /// Allocate a target of the given size: black pixels, far depths, black
    /// background, white draw color.
    pub fn new(width: usize, height: usize) -> (fb: Framebuffer)
        requires
            width <= MAX_DIM,
            height <= MAX_DIM,
        ensures
            fb.wf(),
            fb.width == width,
            fb.height == height,
            fb.background_color == 0,
            fb.current_color == 0xFFFFFF,
            forall|i: int| 0 <= i < fb.buffer@.len() ==> fb.buffer@[i] == 0,
            forall|i: int| 0 <= i < fb.zbuffer@.len() ==> fb.zbuffer@[i] == FAR_DEPTH,
    {
        proof {
            crate::fx::lemma_mul_range(width as int, height as int, 16384, 16384);
        }
        let n: usize = width * height;
        let mut buffer: Vec<u32> = Vec::new();
        let mut zbuffer: Vec<i64> = Vec::new();
        let mut i: usize = 0;
        while i < n
            invariant
                i <= n,
                buffer@.len() == i,
                zbuffer@.len() == i,
                forall|j: int| 0 <= j < i ==> buffer@[j] == 0,
                forall|j: int| 0 <= j < i ==> zbuffer@[j] == FAR_DEPTH,
            decreases n - i,
        {
            buffer.push(0);
            zbuffer.push(FAR_DEPTH);
            i = i + 1;
        }
        Framebuffer {
            width,
            height,
            buffer,
            zbuffer,
            background_color: 0,
            current_color: 0xFFFFFF,
        }
    }

    /// Set the color that `clear` paints.
    pub fn set_background_color(&mut self, color: u32)
        ensures
            *final(self) == (Framebuffer { background_color: color, ..*old(self) }),
    {
        self.background_color = color;
    }

    /// Set the draw-color register consumed by `point`.
    pub fn set_current_color(&mut self, color: u32)
        ensures
            *final(self) == (Framebuffer { current_color: color, ..*old(self) }),
    {
        self.current_color = color;
    }

    /// Reset every pixel to the background color and every depth cell to the
    /// far sentinel.
    pub fn clear(&mut self)
        requires
            old(self).wf(),
        ensures
            final(self).wf(),
            final(self).width == old(self).width,
            final(self).height == old(self).height,
            final(self).background_color == old(self).background_color,
            final(self).current_color == old(self).current_color,
            forall|i: int|
                0 <= i < final(self).buffer@.len() ==> final(self).buffer@[i] == old(
                    self,
                ).background_color,
            forall|i: int|
                0 <= i < final(self).zbuffer@.len() ==> final(self).zbuffer@[i] == FAR_DEPTH,
    {
        let n: usize = self.buffer.len();
        let mut i: usize = 0;
        while i < n
            invariant
                i <= n,
                self.wf(),
                n == self.buffer@.len(),
                self.width == old(self).width,
                self.height == old(self).height,
                self.background_color == old(self).background_color,
                self.current_color == old(self).current_color,
                forall|j: int| 0 <= j < i ==> self.buffer@[j] == self.background_color,
                forall|j: int| 0 <= j < i ==> self.zbuffer@[j] == FAR_DEPTH,
            decreases n - i,
        {
            let c: u32 = self.background_color;
            self.buffer.set(i, c);
            self.zbuffer.set(i, FAR_DEPTH);
            i = i + 1;
        }
    }

    /// Write one depth-tested pixel with the current draw color: a no-op
    /// outside the bounds, and a no-op unless the incoming depth is strictly
    /// nearer than the stored one.
    pub fn point(&mut self, x: usize, y: usize, depth: i64)
        requires
            old(self).wf(),
        ensures
            final(self).wf(),
            final(self).width == old(self).width,
            final(self).height == old(self).height,
            final(self).background_color == old(self).background_color,
            final(self).current_color == old(self).current_color,
            final(self).state() == point_upd(
                old(self).state(),
                old(self).width as int,
                old(self).height as int,
                old(self).current_color,
                x as int,
                y as int,
                depth,
            ),
    {
        if x < self.width && y < self.height {
            proof {
                lemma_rowmajor_bound(x as int, y as int, self.width as int, self.height as int);
                crate::fx::lemma_mul_range(y as int, self.width as int, 16384, 16384);
            }
            let idx: usize = y * self.width + x;
            if depth < self.zbuffer[idx] {
                let c: u32 = self.current_color;
                self.buffer.set(idx, c);
                self.zbuffer.set(idx, depth);
            }
        }
    }

    /// Read one pixel's packed color.
    pub fn get_color(&self, x: usize, y: usize) -> (c: u32)
        requires
            self.wf(),
            x < self.width,
            y < self.height,
        ensures
            c == self.buffer@[y * self.width + x],
    {
        proof {
            lemma_rowmajor_bound(x as int, y as int, self.width as int, self.height as int);
            crate::fx::lemma_mul_range(y as int, self.width as int, 16384, 16384);
        }
        self.buffer[y * self.width + x]
    }

    /// Read one pixel's stored depth.
    pub fn get_depth(&self, x: usize, y: usize) -> (d: i64)
        requires
            self.wf(),
            x < self.width,
            y < self.height,
        ensures
            d == self.zbuffer@[y * self.width + x],
    {
        proof {
            lemma_rowmajor_bound(x as int, y as int, self.width as int, self.height as int);
            crate::fx::lemma_mul_range(y as int, self.width as int, 16384, 16384);
        }
        self.zbuffer[y * self.width + x]
    }
}

/// One pixel of a color plane, row-major.
pub open spec fn pixel_at(colors: Seq<u32>, w: int, x: int, y: int) -> u32 {
    colors[y * w + x]
}

/// The smaller of two integers.
pub open spec fn min2_s(a: int, b: int) -> int {
    if a <= b {
        a
    } else {
        b
    }
}

/// The larger of two integers.
pub open spec fn max2_s(a: int, b: int) -> int {
    if a >= b {
        a
    } else {
        b
    }
}

/// Overwriting one pixel cell changes that pixel alone.
proof fn lemma_update_one_pixel(pre: Seq<u32>, post: Seq<u32>, w: int, h: int, xi: int, yi: int, color: u32)
    requires
        pre.len() == w * h,
        0 <= xi < w,
        0 <= yi < h,
        post == pre.update(yi * w + xi, color),
    ensures
        forall|qx: int, qy: int|
            0 <= qx < w && 0 <= qy < h && !(qx == xi && qy == yi) ==> #[trigger] pixel_at(
                post,
                w,
                qx,
                qy,
            ) == pixel_at(pre, w, qx, qy),
        pixel_at(post, w, xi, yi) == color,
        forall|k: int| 0 <= k < post.len() ==> post[k] == pre[k] || #[trigger] post[k] == color,
{
    lemma_rowmajor_bound(xi, yi, w, h);
    assert forall|qx: int, qy: int|
        0 <= qx < w && 0 <= qy < h && !(qx == xi && qy == yi) implies #[trigger] pixel_at(
        post,
        w,
        qx,
        qy,
    ) == pixel_at(pre, w, qx, qy) by {
        lemma_rowmajor_bound(qx, qy, w, h);
        if qy * w + qx == yi * w + xi {
            lemma_rowmajor_inj(qx, qy, xi, yi, w);
        }
    }
}

/// The distance between a line's endpoints along one axis.
pub open spec fn axis_dist_s(p0: int, p1: int) -> int {
    if p1 >= p0 {
        p1 - p0
    } else {
        p0 - p1
    }
}

/// How many steps the line walk takes: the larger axis distance.
pub open spec fn line_span_s(x0: int, y0: int, x1: int, y1: int) -> int {
    max2_s(axis_dist_s(x0, x1), axis_dist_s(y0, y1))
}

/// The `i`-th position of the line walk along one axis: the start coordinate
/// moved toward the end coordinate by the rounded fraction `i / n` of the
/// axis distance (for a zero-step walk, the start itself).
pub open spec fn axis_step_s(p0: int, p1: int, n: int, i: int) -> int {
    if n <= 0 {
        p0
    } else {
        let d = axis_dist_s(p0, p1);
        if p1 >= p0 {
            p0 + (i * d + n / 2) / n
        } else {
            p0 - (i * d + n / 2) / n
        }
    }
}

/// One step of the integer line walk along one axis: exactly the rounded
/// fraction of [`axis_step_s`], so exact at both ends and never outside the
/// endpoints.
fn line_step(p0: usize, p1: usize, d: usize, n: usize, i: usize) -> (p: usize)
    requires
        1 <= n <= LINE_LIMIT,
        i <= n,
        p0 <= LINE_LIMIT,
        p1 <= LINE_LIMIT,
        d <= n,
        p1 >= p0 ==> d == p1 - p0,
        p1 < p0 ==> d == p0 - p1,
    ensures
        p as int == axis_step_s(p0 as int, p1 as int, n as int, i as int),
        min2_s(p0 as int, p1 as int) <= p <= max2_s(p0 as int, p1 as int),
        i == 0 ==> p == p0,
        i == n ==> p == p1,
{
    proof {
        assert(d as int == axis_dist_s(p0 as int, p1 as int));
    }
    proof {
        crate::fx::lemma_mul_range(i as int, d as int, 0x100000, 0x100000);
        vstd::arithmetic::mul::lemma_mul_inequality(i as int, n as int, d as int);
        lemma_div_is_ordered(
            i as int * d as int + n as int / 2,
            n as int * d as int + n as int / 2,
            n as int,
        );
        lemma_div_multiples_vanish_fancy(d as int, n as int / 2, n as int);
        lemma_div_pos_is_pos(i as int * d as int + n as int / 2, n as int);
        if i == 0 {
            vstd::arithmetic::div_mod::lemma_basic_div(n as int / 2, n as int);
        }
    }
    let t64: u64 = (i as u64 * d as u64 + n as u64 / 2) / n as u64;
    let t: usize = t64 as usize;
    if p1 >= p0 {
        p0 + t
    } else {
        p0 - t
    }
}

impl Framebuffer {
    /// Paint one pixel unconditionally if it is in bounds (the line
    /// primitive's plot, which ignores the depth buffer).
    fn plot(&mut self, x: usize, y: usize, color: u32)
        requires
            old(self).wf(),
        ensures
            final(self).wf(),
            final(self).width == old(self).width,
            final(self).height == old(self).height,
            final(self).background_color == old(self).background_color,
            final(self).current_color == old(self).current_color,
            final(self).zbuffer@ == old(self).zbuffer@,
            x < old(self).width && y < old(self).height ==> final(self).buffer@ == old(
                self,
            ).buffer@.update(y * old(self).width + x, color),
            !(x < old(self).width && y < old(self).height) ==> final(self).buffer@ == old(
                self,
            ).buffer@,
    {
        if x < self.width && y < self.height {
            proof {
                lemma_rowmajor_bound(x as int, y as int, self.width as int, self.height as int);
                crate::fx::lemma_mul_range(y as int, self.width as int, 16384, 16384);
            }
            let idx: usize = y * self.width + x;
            self.buffer.set(idx, color);
        }
    }

    /// Draw a straight line of one color by integer stepping along the major
    /// axis, ignoring the depth buffer (a debug overlay primitive). It never
    /// writes outside the buffer and never panics, whatever the endpoints;
    /// endpoints beyond `LINE_LIMIT` draw nothing, painted pixels stay inside
    /// the endpoints' bounding rectangle, and every pixel of the walk — the
    /// `i`-th of [`line_span_s`] rounded steps from one endpoint to the
    /// other, endpoints included — is painted when it is in bounds.
    #[verifier::loop_isolation(false)]
    #[verifier::rlimit(60)]
    pub fn draw_line(&mut self, x0: usize, y0: usize, x1: usize, y1: usize, color: u32)
        requires
            old(self).wf(),
        ensures
            final(self).wf(),
            final(self).width == old(self).width,
            final(self).height == old(self).height,
            final(self).background_color == old(self).background_color,
            final(self).current_color == old(self).current_color,
            final(self).zbuffer@ == old(self).zbuffer@,
            final(self).buffer@.len() == old(self).buffer@.len(),
            forall|i: int|
                0 <= i < final(self).buffer@.len() ==> final(self).buffer@[i] == old(
                    self,
                ).buffer@[i] || final(self).buffer@[i] == color,
            forall|qx: int, qy: int|
                0 <= qx < old(self).width && 0 <= qy < old(self).height && !(min2_s(
                    x0 as int,
                    x1 as int,
                ) <= qx <= max2_s(x0 as int, x1 as int) && min2_s(y0 as int, y1 as int) <= qy
                    <= max2_s(y0 as int, y1 as int)) ==> #[trigger] pixel_at(
                    final(self).buffer@,
                    old(self).width as int,
                    qx,
                    qy,
                ) == pixel_at(old(self).buffer@, old(self).width as int, qx, qy),
            (x0 <= LINE_LIMIT && y0 <= LINE_LIMIT && x1 <= LINE_LIMIT && y1 <= LINE_LIMIT) ==> {
                &&& (x0 < old(self).width && y0 < old(self).height ==> pixel_at(
                    final(self).buffer@,
                    old(self).width as int,
                    x0 as int,
                    y0 as int,
                ) == color)
                &&& (x1 < old(self).width && y1 < old(self).height ==> pixel_at(
                    final(self).buffer@,
                    old(self).width as int,
                    x1 as int,
                    y1 as int,
                ) == color)
                &&& forall|i: int|
                    #![trigger axis_step_s(x0 as int, x1 as int, line_span_s(x0 as int, y0 as int, x1 as int, y1 as int), i)]
                    0 <= i <= line_span_s(x0 as int, y0 as int, x1 as int, y1 as int) && 0
                        <= axis_step_s(
                        x0 as int,
                        x1 as int,
                        line_span_s(x0 as int, y0 as int, x1 as int, y1 as int),
                        i,
                    ) < old(self).width && 0 <= axis_step_s(
                        y0 as int,
                        y1 as int,
                        line_span_s(x0 as int, y0 as int, x1 as int, y1 as int),
                        i,
                    ) < old(self).height ==> pixel_at(
                        final(self).buffer@,
                        old(self).width as int,
                        axis_step_s(
                            x0 as int,
                            x1 as int,
                            line_span_s(x0 as int, y0 as int, x1 as int, y1 as int),
                            i,
                        ),
                        axis_step_s(
                            y0 as int,
                            y1 as int,
                            line_span_s(x0 as int, y0 as int, x1 as int, y1 as int),
                            i,
                        ),
                    ) == color
            },
            !(x0 <= LINE_LIMIT && y0 <= LINE_LIMIT && x1 <= LINE_LIMIT && y1 <= LINE_LIMIT)
                ==> final(self).buffer@ == old(self).buffer@,
    {
        if x0 > LINE_LIMIT || y0 > LINE_LIMIT || x1 > LINE_LIMIT || y1 > LINE_LIMIT {
            return ;
        }
        let dx: usize = if x1 >= x0 {
            x1 - x0
        } else {
            x0 - x1
        };
        let dy: usize = if y1 >= y0 {
            y1 - y0
        } else {
            y0 - y1
        };
        let n: usize = if dx >= dy {
            dx
        } else {
            dy
        };
        let ghost w: int = old(self).width as int;
        let ghost h: int = old(self).height as int;
        if n == 0 {
            let ghost pre: Seq<u32> = self.buffer@;
            self.plot(x0, y0, color);
            proof {
                assert(line_span_s(x0 as int, y0 as int, x1 as int, y1 as int) == 0);
                if x0 < old(self).width && y0 < old(self).height {
                    lemma_update_one_pixel(
                        pre,
                        self.buffer@,
                        w,
                        h,
                        x0 as int,
                        y0 as int,
                        color,
                    );
                }
                assert forall|i: int|
                    0 <= i <= 0 && 0 <= #[trigger] axis_step_s(x0 as int, x1 as int, 0, i) < old(
                    self,
                ).width && 0 <= axis_step_s(y0 as int, y1 as int, 0, i) < old(self).height
                    implies pixel_at(
                    self.buffer@,
                    w,
                    axis_step_s(x0 as int, x1 as int, 0, i),
                    axis_step_s(y0 as int, y1 as int, 0, i),
                ) == color by {
                    assert(axis_step_s(x0 as int, x1 as int, 0, i) == x0 as int);
                    assert(axis_step_s(y0 as int, y1 as int, 0, i) == y0 as int);
                }
            }
            return ;
        }
        let mut i: usize = 0;
        while i <= n
            invariant
                i <= n + 1,
                1 <= n <= LINE_LIMIT,
                dx <= n,
                dy <= n,
                self.wf(),
                self.width == old(self).width,
                self.height == old(self).height,
                self.background_color == old(self).background_color,
                self.current_color == old(self).current_color,
                self.zbuffer@ == old(self).zbuffer@,
                self.buffer@.len() == old(self).buffer@.len(),
                forall|k: int|
                    0 <= k < self.buffer@.len() ==> self.buffer@[k] == old(self).buffer@[k]
                        || self.buffer@[k] == color,
                forall|qx: int, qy: int|
                    0 <= qx < old(self).width && 0 <= qy < old(self).height && !(min2_s(
                        x0 as int,
                        x1 as int,
                    ) <= qx <= max2_s(x0 as int, x1 as int) && min2_s(y0 as int, y1 as int) <= qy
                        <= max2_s(y0 as int, y1 as int)) ==> #[trigger] pixel_at(
                        self.buffer@,
                        old(self).width as int,
                        qx,
                        qy,
                    ) == pixel_at(old(self).buffer@, old(self).width as int, qx, qy),
                i >= 1 && x0 < old(self).width && y0 < old(self).height ==> pixel_at(
                    self.buffer@,
                    old(self).width as int,
                    x0 as int,
                    y0 as int,
                ) == color,
                i > n && x1 < old(self).width && y1 < old(self).height ==> pixel_at(
                    self.buffer@,
                    old(self).width as int,
                    x1 as int,
                    y1 as int,
                ) == color,
                forall|j: int|
                    #![trigger axis_step_s(x0 as int, x1 as int, n as int, j)]
                    0 <= j < i && 0 <= axis_step_s(x0 as int, x1 as int, n as int, j) < old(
                        self,
                    ).width && 0 <= axis_step_s(y0 as int, y1 as int, n as int, j) < old(
                        self,
                    ).height ==> pixel_at(
                        self.buffer@,
                        old(self).width as int,
                        axis_step_s(x0 as int, x1 as int, n as int, j),
                        axis_step_s(y0 as int, y1 as int, n as int, j),
                    ) == color,
            decreases n + 1 - i,
        {
            let xi: usize = line_step(x0, x1, dx, n, i);
            let yi: usize = line_step(y0, y1, dy, n, i);
            let ghost pre: Seq<u32> = self.buffer@;
            self.plot(xi, yi, color);
            proof {
                if xi < old(self).width && yi < old(self).height {
                    lemma_update_one_pixel(pre, self.buffer@, w, h, xi as int, yi as int, color);
                }
                assert forall|j: int|
                    #![trigger axis_step_s(x0 as int, x1 as int, n as int, j)]
                    0 <= j < i + 1 && 0 <= axis_step_s(x0 as int, x1 as int, n as int, j) < old(
                    self,
                ).width && 0 <= axis_step_s(y0 as int, y1 as int, n as int, j) < old(self).height
                    implies pixel_at(
                    self.buffer@,
                    old(self).width as int,
                    axis_step_s(x0 as int, x1 as int, n as int, j),
                    axis_step_s(y0 as int, y1 as int, n as int, j),
                ) == color by {
                    let sx = axis_step_s(x0 as int, x1 as int, n as int, j);
                    let sy = axis_step_s(y0 as int, y1 as int, n as int, j);
                    lemma_rowmajor_bound(sx, sy, w, h);
                    if j == i {
                        assert(sx == xi as int && sy == yi as int);
                    } else {
                        assert(pixel_at(pre, w, sx, sy) == color);
                    }
                }
            }
            i = i + 1;
        }
        proof {
            assert(n as int == line_span_s(x0 as int, y0 as int, x1 as int, y1 as int));
        }
    }
}

/// Depth-test order independence: two depth-tested writes of distinct depths
/// to one pixel leave the same colors and depths in either order — the
/// nearer write wins.
pub proof fn lemma_depth_order_independent(
    st: FbState,
    width: int,
    height: int,
    c1: u32,
    d1: i64,
    c2: u32,
    d2: i64,
    x: int,
    y: int,
)
    requires
        d1 != d2,
        st.colors.len() == width * height,
        st.depths.len() == width * height,
    ensures
        point_upd(point_upd(st, width, height, c1, x, y, d1), width, height, c2, x, y, d2)
            =~~= point_upd(point_upd(st, width, height, c2, x, y, d2), width, height, c1, x, y, d1),
{
    if 0 <= x < width && 0 <= y < height {
        lemma_rowmajor_bound(x, y, width, height);
        let idx = y * width + x;
        let ab = point_upd(point_upd(st, width, height, c1, x, y, d1), width, height, c2, x, y, d2);
        let ba = point_upd(point_upd(st, width, height, c2, x, y, d2), width, height, c1, x, y, d1);
        assert(ab.colors =~= ba.colors);
        assert(ab.depths =~= ba.depths);
    }
}

} // verus!
