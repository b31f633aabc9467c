//! Pixel-indexed storage for packed colors and for depths.
//!
//! One structure serves both uses.  As a color buffer each cell holds a
//! packed RGB value.  As a depth buffer each cell holds a depth in `[0, 1]`
//! scaled to the range of `u32`: zero is stored as `0` and one as
//! `u32::MAX`, so that a cleared cell reads back as exactly one.

use vstd::prelude::*;
use vstd::arithmetic::mul::lemma_mul_nonnegative;

verus! {

/// The largest raw depth that a cell can hold: the number one.
pub const DEPTH_ONE: i32 = 65536;

/// The factor between a raw depth below one and the stored value.
pub const DEPTH_SCALE: u32 = 65536;

/// The stored value of the raw depth `z`: the depth times `2^16`, limited to
/// the range of the cell.  Depths below zero are stored as zero, depths of
/// one and above as `u32::MAX`.
pub open spec fn depth_to_stored(z: int) -> int {
    if z < 0 {
        0
    } else if z >= 65536 {
        u32::MAX as int
    } else {
        z * 65536
    }
}

/// The raw depth that the stored value `q` stands for: `(q + 1) / 2^16`,
/// rounded down.  The one added makes `u32::MAX` read as one; every stored
/// multiple of `2^16` reads as before.
pub open spec fn stored_to_depth(q: int) -> int {
    (q + 1) / 65536
}

/// The outcome of a depth test of the candidate depth `z` against the stored
/// value `q`: whether the candidate passes, and the value stored afterwards.
pub open spec fn depth_test_spec(q: int, z: int) -> (bool, int) {
    if z < stored_to_depth(q) {
        (true, depth_to_stored(z))
    } else {
        (false, q)
    }
}

/// A depth within `[0, 1]` is read back exactly as it was stored.
pub proof fn lemma_depth_round_trip(z: int)
    requires
        0 <= z <= 65536,
    ensures
        0 <= depth_to_stored(z) <= u32::MAX,
        stored_to_depth(depth_to_stored(z)) == z,
{
}

/// A cleared depth cell reads back as exactly one: every depth below one
/// passes the depth test against it, and a depth of one does not.
pub proof fn lemma_cleared_depth_is_one()
    ensures
        stored_to_depth(u32::MAX as int) == 65536,
        forall|z: int| depth_test_spec(u32::MAX as int, z).0 <==> z < 65536,
{
}

/// Of two candidate depths `z1 < z2` at one pixel that both lie in front of
/// what is stored, the depth test keeps `z1` in either order.  When `z2` is
/// written first both candidates pass, so the color is written twice.  When
/// `z1` is written first `z2` is rejected, so the color is written once.  A
/// candidate that has been written does not pass a second time.
pub proof fn lemma_depth_test_order(q: int, z1: int, z2: int)
    requires
        0 <= z1 < z2 <= 65536,
        z2 < stored_to_depth(q),
    ensures
        ({
            let (far_first, after_far) = depth_test_spec(q, z2);
            let (then_near, stored) = depth_test_spec(after_far, z1);
            far_first && then_near && stored == depth_to_stored(z1)
        }),
        ({
            let (near_first, after_near) = depth_test_spec(q, z1);
            let (then_far, stored) = depth_test_spec(after_near, z2);
            near_first && !then_far && stored == depth_to_stored(z1)
        }),
        !depth_test_spec(depth_to_stored(z1), z1).0,
{
    lemma_depth_round_trip(z1);
    lemma_depth_round_trip(z2);
}

/// A buffer of `width * height` cells, stored row by row.
pub struct Framebuffer {
    data: Vec<u32>,
    width: usize,
    height: usize,
}

impl Framebuffer {
    /// The cells, row by row.
    pub closed spec fn view(&self) -> Seq<u32> {
        self.data@
    }

    /// The number of cells in a row.
    pub closed spec fn spec_width(&self) -> usize {
        self.width
    }

    /// The number of rows.
    pub closed spec fn spec_height(&self) -> usize {
        self.height
    }

    /// There is exactly one cell for each pixel.
    pub closed spec fn wf(&self) -> bool {
        self.data@.len() == self.width * self.height && self.width * self.height <= usize::MAX
    }

    /// The position of pixel `(x, y)` among the cells.
    pub open spec fn index_of(&self, x: int, y: int) -> int {
        x + y * self.spec_width()
    }

    /// A well-formed buffer has one cell for each pixel.
    pub proof fn lemma_len(&self)
        requires
            self.wf(),
        ensures
            self@.len() == self.spec_width() * self.spec_height(),
    {
    }

    /// A pixel inside the buffer has a cell.
    pub proof fn lemma_index_in_range(&self, x: int, y: int)
        requires
            self.wf(),
            0 <= x < self.spec_width(),
            0 <= y < self.spec_height(),
        ensures
            0 <= self.index_of(x, y) < self@.len(),
    {
        let w = self.spec_width() as int;
        let h = self.spec_height() as int;
        assert(0 <= y * w && x + y * w < w * h) by (nonlinear_arith)
            requires
                0 <= x < w,
                0 <= y < h,
        ;
    }

    /// A buffer of the given size with every cell zero.
    pub fn new(width: usize, height: usize) -> (fb: Framebuffer)
        requires
            width * height <= usize::MAX,
        ensures
            fb.wf(),
            fb.spec_width() == width,
            fb.spec_height() == height,
            fb@ == Seq::new((width * height) as nat, |i: int| 0u32),
    {
        let data: Vec<u32> = vec![0; width * height];
        assert(data@ =~= Seq::new((width * height) as nat, |i: int| 0u32));
        Framebuffer { data, width, height }
    }

    /// The number of cells in a row.
    pub fn width(&self) -> (w: usize)
        ensures
            w == self.spec_width(),
    {
        self.width
    }

    /// The number of rows.
    pub fn height(&self) -> (h: usize)
        ensures
            h == self.spec_height(),
    {
        self.height
    }

    /// The cells, row by row, as they are handed to a display.
    pub fn data(&self) -> (cells: &Vec<u32>)
        ensures
            cells@ == self@,
    {
        &self.data
    }

    /// Makes the buffer `width` by `height` cells.  A buffer that has that
    /// size already is left as it is; any other is replaced by a zeroed one.
    pub fn resize(&mut self, width: usize, height: usize) -> (resized: bool)
        requires
            old(self).wf(),
            width * height <= usize::MAX,
        ensures
            final(self).wf(),
            final(self).spec_width() == width,
            final(self).spec_height() == height,
            resized == (old(self).spec_width() != width || old(self).spec_height() != height),
            resized ==> final(self)@ == Seq::new((width * height) as nat, |i: int| 0u32),
            !resized ==> final(self)@ == old(self)@,
    {
        if width != self.width || height != self.height {
            *self = Framebuffer::new(width, height);
            true
        } else {
            false
        }
    }

    /// Stores `value` in the cell of pixel `(x, y)`.
    pub fn set_pixel(&mut self, x: usize, y: usize, value: u32)
        requires
            old(self).wf(),
            old(self).index_of(x as int, y as int) < old(self)@.len(),
        ensures
            final(self).wf(),
            final(self).spec_width() == old(self).spec_width(),
            final(self).spec_height() == old(self).spec_height(),
            final(self)@ == old(self)@.update(old(self).index_of(x as int, y as int), value),
    {
        proof {
            lemma_mul_nonnegative(y as int, self.width as int);
        }
        let i: usize = x + y * self.width;
        self.data.set(i, value);
    }

    /// The value in the cell of pixel `(x, y)`.
    pub fn get_pixel(&self, x: usize, y: usize) -> (value: u32)
        requires
            self.wf(),
            self.index_of(x as int, y as int) < self@.len(),
        ensures
            value == self@[self.index_of(x as int, y as int)],
    {
        proof {
            lemma_mul_nonnegative(y as int, self.width as int);
        }
        self.data[x + y * self.width]
    }

    /// Stores the raw depth `value` in the cell of pixel `(x, y)`.
    pub fn set_pixel_f32(&mut self, x: usize, y: usize, value: i32)
        requires
            old(self).wf(),
            old(self).index_of(x as int, y as int) < old(self)@.len(),
        ensures
            final(self).wf(),
            final(self).spec_width() == old(self).spec_width(),
            final(self).spec_height() == old(self).spec_height(),
            final(self)@ == old(self)@.update(
                old(self).index_of(x as int, y as int),
                depth_to_stored(value as int) as u32,
            ),
    {
        proof {
            lemma_mul_nonnegative(y as int, self.width as int);
        }
        let i: usize = y * self.width + x;
        let stored: u32 = if value < 0 {
            0
        } else if value >= DEPTH_ONE {
            u32::MAX
        } else {
            (value as u32) * DEPTH_SCALE
        };
        self.data.set(i, stored);
    }

    /// The raw depth in the cell of pixel `(x, y)`.
    pub fn get_pixel_f32(&self, x: usize, y: usize) -> (value: i32)
        requires
            self.wf(),
            self.index_of(x as int, y as int) < self@.len(),
        ensures
            value == stored_to_depth(self@[self.index_of(x as int, y as int)] as int),
    {
        proof {
            lemma_mul_nonnegative(y as int, self.width as int);
        }
        let q: u32 = self.data[y * self.width + x];
        ((q as u64 + 1) / (DEPTH_SCALE as u64)) as i32
    }

    /// Tests the candidate depth `z` against the cell of pixel `(x, y)` and
    /// stores it there if it passes.
    pub fn depth_test(&mut self, x: usize, y: usize, z: i32) -> (pass: bool)
        requires
            old(self).wf(),
            old(self).index_of(x as int, y as int) < old(self)@.len(),
        ensures
            final(self).wf(),
            final(self).spec_width() == old(self).spec_width(),
            final(self).spec_height() == old(self).spec_height(),
            ({
                let i = old(self).index_of(x as int, y as int);
                let (passes, stored) = depth_test_spec(old(self)@[i] as int, z as int);
                pass == passes && final(self)@ == old(self)@.update(i, stored as u32)
            }),
    {
        let depth: i32 = self.get_pixel_f32(x, y);
        if z < depth {
            self.set_pixel_f32(x, y, z);
            true
        } else {
            assert(self@ =~= old(self)@.update(
                old(self).index_of(x as int, y as int),
                old(self)@[old(self).index_of(x as int, y as int)],
            ));
            false
        }
    }

    /// Stores `value` in every cell.
    pub fn clear(&mut self, value: u32)
        requires
            old(self).wf(),
        ensures
            final(self).wf(),
            final(self).spec_width() == old(self).spec_width(),
            final(self).spec_height() == old(self).spec_height(),
            final(self)@ == Seq::new(old(self)@.len(), |i: int| value),
    {
        let n: usize = self.data.len();
        let mut i: usize = 0;
        while i < n
            invariant
                i <= n,
                n == self.data@.len(),
                self.width == old(self).width,
                self.height == old(self).height,
                forall|j: int| 0 <= j < i ==> self.data@[j] == value,
            decreases n - i,
        {
            self.data.set(i, value);
            i = i + 1;
        }
        assert(self.data@ =~= Seq::new(old(self)@.len(), |i: int| value));
    }
}

} // verus!
