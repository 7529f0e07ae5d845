//! A pixel buffer with a parallel depth buffer. A candidate fragment is
//! written only when it is strictly nearer than what the pixel already
//! holds, and a pixel's color and depth are always updated as a pair.

use vstd::prelude::*;

verus! {

/// The sentinel depth every pixel holds after a clear; every real
/// fragment depth is nearer than this.
pub const FAR_DEPTH: i64 = i64::MAX;

/// The depth-tested write at one pixel, as one step on the pair of
/// buffers: the write happens exactly when `d` is strictly nearer than
/// the stored depth, and then color and depth move together.
pub open spec fn point_spec(
    colors: Seq<u32>,
    depths: Seq<i64>,
    width: int,
    x: int,
    y: int,
    d: i64,
    c: u32,
) -> (Seq<u32>, Seq<i64>) {
    let i = y * width + x;
    if d < depths[i] {
        (colors.update(i, c), depths.update(i, d))
    } else {
        (colors, depths)
    }
}

/// A color buffer and a depth buffer of equal length `width * height`.
pub struct Framebuffer {
    pub width: usize,
    pub height: usize,
    pub buffer: Vec<u32>,
    pub zbuffer: Vec<i64>,
    pub background_color: u32,
    pub current_color: u32,
}

impl Framebuffer {
    /// Both buffers cover exactly `width * height` index-aligned pixels.
    pub open spec fn wf(&self) -> bool {
        &&& self.buffer@.len() == self.width * self.height
        &&& self.zbuffer@.len() == self.width * self.height
        &&& self.width <= 0x4000_0000
        &&& self.height <= 0x4000_0000
    }

    /// A framebuffer of the given size, black and cleared to the far depth.
    pub fn new(width: usize, height: usize) -> (fb: Framebuffer)
        requires
            width <= 0x4000_0000,
            height <= 0x4000_0000,
            width * height <= usize::MAX,
        ensures
            fb.wf(),
            fb.width == width,
            fb.height == height,
            fb.background_color == 0,
            forall|i: int| 0 <= i < width * height ==> fb.buffer@[i] == 0,
            forall|i: int| 0 <= i < width * height ==> fb.zbuffer@[i] == FAR_DEPTH,
    {
        let n = width * height;
        Framebuffer {
            width,
            height,
            buffer: filled_u32(n, 0),
            zbuffer: filled_i64(n, FAR_DEPTH),
            background_color: 0,
            current_color: 0,
        }
    }

    /// Configure the color that `clear` paints.
    pub fn set_background_color(&mut self, color: u32)
        ensures
            *final(self) == (Framebuffer { background_color: color, ..*old(self) }),
    {
        self.background_color = color;
    }

    /// Configure the color that the next depth-tested writes store.
    pub fn set_current_color(&mut self, color: u32)
        ensures
            *final(self) == (Framebuffer { current_color: color, ..*old(self) }),
    {
        self.current_color = color;
    }

    /// Reset every pixel to the background color and every depth entry
    /// to the far sentinel.
    pub fn clear(&mut self)
        requires
            old(self).wf(),
        ensures
            final(self).wf(),
            final(self).width == old(self).width,
            final(self).height == old(self).height,
            final(self).background_color == old(self).background_color,
            final(self).current_color == old(self).current_color,
            forall|i: int|
                0 <= i < old(self).width * old(self).height ==> final(self).buffer@[i]
                    == old(self).background_color,
            forall|i: int|
                0 <= i < old(self).width * old(self).height ==> final(self).zbuffer@[i]
                    == FAR_DEPTH,
    {
        let n = self.buffer.len();
        self.buffer = filled_u32(n, self.background_color);
        self.zbuffer = filled_i64(n, FAR_DEPTH);
    }

    /// Depth-tested write at an in-bounds pixel: the stored color and
    /// depth change, together, exactly when `depth` is strictly nearer.
    pub fn point(&mut self, x: usize, y: usize, depth: i64)
        requires
            old(self).wf(),
            x < old(self).width,
            y < old(self).height,
        ensures
            final(self).wf(),
            final(self).width == old(self).width,
            final(self).height == old(self).height,
            final(self).background_color == old(self).background_color,
            final(self).current_color == old(self).current_color,
            (final(self).buffer@, final(self).zbuffer@) == point_spec(
                old(self).buffer@,
                old(self).zbuffer@,
                old(self).width as int,
                x as int,
                y as int,
                depth,
                old(self).current_color,
            ),
    {
        let len = self.buffer.len();
        proof {
            lemma_pixel_index_in_range(
                self.width as int,
                self.height as int,
                x as int,
                y as int,
            );
            assert(y as int * self.width as int + x < len);
        }
        let i = y * self.width + x;
        if depth < self.zbuffer[i] {
            let c = self.current_color;
            self.buffer.set(i, c);
            self.zbuffer.set(i, depth);
        }
    }

    /// Bounds-checked depth-tested write: a fragment whose coordinates
    /// fall outside the buffer never mutates it.
    pub fn plot(&mut self, x: i64, y: i64, depth: i64)
        requires
            old(self).wf(),
        ensures
            final(self).wf(),
            final(self).width == old(self).width,
            final(self).height == old(self).height,
            final(self).background_color == old(self).background_color,
            final(self).current_color == old(self).current_color,
            (0 <= x < old(self).width && 0 <= y < old(self).height) ==> (
                final(self).buffer@,
                final(self).zbuffer@,
            ) == point_spec(
                old(self).buffer@,
                old(self).zbuffer@,
                old(self).width as int,
                x as int,
                y as int,
                depth,
                old(self).current_color,
            ),
            !(0 <= x < old(self).width && 0 <= y < old(self).height) ==> *final(self) == *old(
                self,
            ),
    {
        if 0 <= x && 0 <= y && x < self.width as i64 && y < self.height as i64 {
            self.point(x as usize, y as usize, depth);
        }
    }
}

/// A pixel's flat index lies inside a `width * height` buffer.
pub proof fn lemma_pixel_index_in_range(width: int, height: int, x: int, y: int)
    requires
        0 <= x < width,
        0 <= y < height,
    ensures
        0 <= y * width + x < width * height,
{
    assert(y * width + x < width * height) by (nonlinear_arith)
        requires 0 <= x < width, 0 <= y < height;
    assert(y * width >= 0) by (nonlinear_arith)
        requires y >= 0, width > 0;
}

fn filled_u32(n: usize, v: u32) -> (r: Vec<u32>)
    ensures
        r@.len() == n,
        forall|i: int| 0 <= i < n ==> r@[i] == v,
{
    let mut r: Vec<u32> = Vec::new();
    let mut k: usize = 0;
    while k < n
        invariant
            k <= n,
            r@.len() == k,
            forall|i: int| 0 <= i < k ==> r@[i] == v,
        decreases n - k,
    {
        r.push(v);
        k = k + 1;
    }
    r
}

fn filled_i64(n: usize, v: i64) -> (r: Vec<i64>)
    ensures
        r@.len() == n,
        forall|i: int| 0 <= i < n ==> r@[i] == v,
{
    let mut r: Vec<i64> = Vec::new();
    let mut k: usize = 0;
    while k < n
        invariant
            k <= n,
            r@.len() == k,
            forall|i: int| 0 <= i < k ==> r@[i] == v,
        decreases n - k,
    {
        r.push(v);
        k = k + 1;
    }
    r
}

/// Drawing one fragment at one pixel twice leaves the buffers exactly as
/// drawing it once does: the second identical write never passes the
/// strict depth test.
pub proof fn lemma_point_idempotent(
    colors: Seq<u32>,
    depths: Seq<i64>,
    width: int,
    x: int,
    y: int,
    d: i64,
    c: u32,
)
    requires
        colors.len() == depths.len(),
        0 <= y * width + x < depths.len(),
    ensures
        ({
            let once = point_spec(colors, depths, width, x, y, d, c);
            point_spec(once.0, once.1, width, x, y, d, c) == once
        }),
{
    let i = y * width + x;
    let once = point_spec(colors, depths, width, x, y, d, c);
    if d < depths[i] {
        assert(once.1[i] == d);
    }
}

/// At one pixel the nearer of two fragments wins whatever the order the
/// two are drawn in, provided both are nearer than what the pixel holds.
pub proof fn lemma_depth_ordering(
    colors: Seq<u32>,
    depths: Seq<i64>,
    width: int,
    x: int,
    y: int,
    d1: i64,
    c1: u32,
    d2: i64,
    c2: u32,
)
    requires
        colors.len() == depths.len(),
        0 <= y * width + x < depths.len(),
        d1 < d2,
        d2 < depths[y * width + x],
    ensures
        ({
            let far_first = point_spec(colors, depths, width, x, y, d2, c2);
            let far_then_near = point_spec(far_first.0, far_first.1, width, x, y, d1, c1);
            far_then_near.0[y * width + x] == c1 && far_then_near.1[y * width + x] == d1
        }),
        ({
            let near_first = point_spec(colors, depths, width, x, y, d1, c1);
            let near_then_far = point_spec(near_first.0, near_first.1, width, x, y, d2, c2);
            near_then_far.0[y * width + x] == c1 && near_then_far.1[y * width + x] == d1
        }),
{
}

/// After a clear, the first fragment drawn at any in-bounds pixel always
/// passes the depth test: the pixel behaves as if nothing had been drawn.
pub proof fn lemma_clear_fresh_write(
    width: int,
    height: int,
    bg: u32,
    x: int,
    y: int,
    d: i64,
    c: u32,
)
    requires
        0 <= x < width,
        0 <= y < height,
        d < FAR_DEPTH,
    ensures
        ({
            let cleared_colors = Seq::<u32>::new((width * height) as nat, |i: int| bg);
            let cleared_depths = Seq::<i64>::new((width * height) as nat, |i: int| FAR_DEPTH);
            let written = point_spec(cleared_colors, cleared_depths, width, x, y, d, c);
            written.0[y * width + x] == c && written.1[y * width + x] == d
        }),
{
    lemma_pixel_index_in_range(width, height, x, y);
}

} // verus!
