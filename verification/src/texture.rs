//! Decoded images and their bilinear sampling.

use vstd::prelude::*;
use crate::fixed::{div_floor, lemma_mul_bounded, mod_floor};
use crate::vector::{lerp4_spec, Vec4};

verus! {

/// Why a decoded image cannot be used as a texture.
#[derive(Clone, Copy, Debug, PartialEq, Eq)]
pub enum TextureError {
    /// The image has neither three nor four channels.
    UnsupportedChannelCount,
    /// The image is less than two texels wide or high: the modulus by which
    /// its coordinates wrap, the size less one, would be zero.
    TooSmall,
    /// The buffer does not hold `width * height * channel_count` bytes.
    SizeMismatch,
}

/// What a texture holds: its bytes, row by row and texel by texel, and its
/// dimensions.
pub struct TexelGrid {
    pub data: Seq<u8>,
    pub width: int,
    pub height: int,
    pub channel_count: int,
}

/// A decoded image of three or four channels.
#[derive(Clone, Debug)]
pub struct Texture {
    data: Vec<u8>,
    width: u32,
    height: u32,
    channel_count: usize,
}

/// The raw color value of a channel byte: the byte divided by 255.99.
pub open spec fn channel_spec(byte: int) -> int {
    (byte * 6553600) / 25599
}

/// The index of the texel under the raw coordinate `t` along an axis of
/// `size` texels: `t * size` rounded down and wrapped modulo `size - 1`.
/// Coordinates below zero wrap as all others do.
pub open spec fn texel_index_spec(t: int, size: int) -> int {
    ((t * size) / 65536) % (size - 1)
}

/// The raw size of one texel along an axis of `size` texels that spans one.
pub open spec fn texel_size_spec(size: int) -> int {
    65536int / size
}

/// The fractional part of the raw value `t`: what is left of `t` when it is
/// rounded down to a whole number.  It is never negative.
pub open spec fn fraction_spec(t: int) -> int {
    t % 65536
}

/// Why an image of `len` bytes with the given dimensions cannot be used as a
/// texture, if it cannot.  The channel count is looked at first, then the
/// dimensions, then the number of bytes.
pub open spec fn defect_spec(len: int, width: int, height: int, channel_count: int) -> Option<
    TextureError,
> {
    if channel_count != 3 && channel_count != 4 {
        Some(TextureError::UnsupportedChannelCount)
    } else if width < 2 || height < 2 {
        Some(TextureError::TooSmall)
    } else if len != width * height * channel_count {
        Some(TextureError::SizeMismatch)
    } else {
        None
    }
}

/// Finds what keeps an image from being used as a texture.
fn defect(len: usize, width: u32, height: u32, channel_count: usize) -> (r: Option<TextureError>)
    ensures
        r == defect_spec(len as int, width as int, height as int, channel_count as int),
{
    if channel_count != 3 && channel_count != 4 {
        return Some(TextureError::UnsupportedChannelCount);
    }
    if width < 2 || height < 2 {
        return Some(TextureError::TooSmall);
    }
    proof {
        lemma_mul_bounded(width as int, height as int, 0xffff_ffff, 0xffff_ffff);
    }
    let texels: u128 = (width as u128) * (height as u128);
    proof {
        lemma_mul_bounded(texels as int, channel_count as int, 0xffff_fffe_0000_0001, 4);
    }
    let bytes: u128 = texels * (channel_count as u128);
    if len as u128 != bytes {
        Some(TextureError::SizeMismatch)
    } else {
        None
    }
}

impl TexelGrid {
    /// The dimensions are supported and match the number of bytes, which
    /// a buffer can hold.
    pub open spec fn wf(self) -> bool {
        &&& (self.channel_count == 3 || self.channel_count == 4)
        &&& 2 <= self.width <= u32::MAX
        &&& 2 <= self.height <= u32::MAX
        &&& self.data.len() == self.width * self.height * self.channel_count
        &&& self.data.len() <= usize::MAX
    }

    /// The color of the texel in column `tx` of row `ty`.  An image of three
    /// channels has alpha zero.
    pub open spec fn texel(self, tx: int, ty: int) -> (int, int, int, int) {
        let base = (ty * self.width + tx) * self.channel_count;
        (
            channel_spec(self.data[base] as int),
            channel_spec(self.data[base + 1] as int),
            channel_spec(self.data[base + 2] as int),
            if self.channel_count == 4 {
                channel_spec(self.data[base + 3] as int)
            } else {
                0
            },
        )
    }

    /// The color of the texel under the raw coordinates `(x, y)`.
    pub open spec fn get_pixel(self, x: int, y: int) -> (int, int, int, int) {
        self.texel(texel_index_spec(x, self.width), texel_index_spec(y, self.height))
    }

    /// The bilinear sample at the raw coordinates `(x, y)`: the texels one
    /// texel size away along both diagonals, blended by the fractional
    /// texel position.
    pub open spec fn sample_pixel(self, x: int, y: int) -> (int, int, int, int) {
        let ix = texel_size_spec(self.width);
        let iy = texel_size_spec(self.height);
        let tl = self.get_pixel(x - ix, y - iy);
        let bl = self.get_pixel(x - ix, y + iy);
        let br = self.get_pixel(x + ix, y + iy);
        let tr = self.get_pixel(x + ix, y - iy);
        let dx = fraction_spec(x * self.width);
        let dy = fraction_spec(y * self.height);
        let bottom = lerp4_spec(bl, br, dx);
        let top = lerp4_spec(tl, tr, dx);
        lerp4_spec(top, bottom, dy)
    }
}

/// A texel inside the image has its bytes inside the buffer.
pub proof fn lemma_texel_in_buffer(width: int, height: int, channels: int, tx: int, ty: int)
    requires
        0 <= tx < width,
        0 <= ty < height,
        channels >= 1,
    ensures
        0 <= ty * width,
        0 <= ty * width + tx < width * height,
        0 <= (ty * width + tx) * channels,
        (ty * width + tx) * channels + channels <= width * height * channels,
{
    assert(0 <= ty * width && ty * width + tx < width * height) by (nonlinear_arith)
        requires
            0 <= tx < width,
            0 <= ty < height,
    ;
    let i = ty * width + tx;
    let n = width * height;
    assert(0 <= i * channels && i * channels + channels <= n * channels) by (nonlinear_arith)
        requires
            0 <= i < n,
            channels >= 1,
    ;
}

/// The color of a texel has each component between zero and one.
pub proof fn lemma_texel_in_range(t: TexelGrid, tx: int, ty: int)
    ensures
        ({
            let c = t.texel(tx, ty);
            &&& 0 <= c.0 < 65536
            &&& 0 <= c.1 < 65536
            &&& 0 <= c.2 < 65536
            &&& 0 <= c.3 < 65536
        }),
{
    let base = (ty * t.width + tx) * t.channel_count;
    lemma_channel_in_range(t.data[base] as int);
    lemma_channel_in_range(t.data[base + 1] as int);
    lemma_channel_in_range(t.data[base + 2] as int);
    lemma_channel_in_range(t.data[base + 3] as int);
}

/// Where the four texels that a sample blends hold one color, the sample is
/// that color, whatever the blend weights: nothing of any other texel enters.
pub proof fn lemma_sample_of_equal_texels(t: TexelGrid, x: int, y: int, c: (int, int, int, int))
    requires
        t.get_pixel(x - texel_size_spec(t.width), y - texel_size_spec(t.height)) == c,
        t.get_pixel(x - texel_size_spec(t.width), y + texel_size_spec(t.height)) == c,
        t.get_pixel(x + texel_size_spec(t.width), y + texel_size_spec(t.height)) == c,
        t.get_pixel(x + texel_size_spec(t.width), y - texel_size_spec(t.height)) == c,
    ensures
        t.sample_pixel(x, y) == c,
{
    let dx = fraction_spec(x * t.width);
    let dy = fraction_spec(y * t.height);
    lemma_texel_in_range(
        t,
        texel_index_spec(x - texel_size_spec(t.width), t.width),
        texel_index_spec(y - texel_size_spec(t.height), t.height),
    );
    assert((c.0 - c.0) * dx == 0 && (c.0 - c.0) * dy == 0) by (nonlinear_arith);
    assert((c.1 - c.1) * dx == 0 && (c.1 - c.1) * dy == 0) by (nonlinear_arith);
    assert((c.2 - c.2) * dx == 0 && (c.2 - c.2) * dy == 0) by (nonlinear_arith);
    assert((c.3 - c.3) * dx == 0 && (c.3 - c.3) * dy == 0) by (nonlinear_arith);
}

/// A sample at the exact center of the texel in column `tx` of row `ty`
/// returns the color of that texel unchanged, where the four texels that the
/// sample blends hold that color.
pub proof fn lemma_sample_at_texel_center(t: TexelGrid, x: int, y: int, tx: int, ty: int)
    requires
        x * t.width == tx * 65536 + 32768,
        y * t.height == ty * 65536 + 32768,
        t.get_pixel(x - texel_size_spec(t.width), y - texel_size_spec(t.height)) == t.texel(tx, ty),
        t.get_pixel(x - texel_size_spec(t.width), y + texel_size_spec(t.height)) == t.texel(tx, ty),
        t.get_pixel(x + texel_size_spec(t.width), y + texel_size_spec(t.height)) == t.texel(tx, ty),
        t.get_pixel(x + texel_size_spec(t.width), y - texel_size_spec(t.height)) == t.texel(tx, ty),
    ensures
        t.sample_pixel(x, y) == t.texel(tx, ty),
{
    lemma_sample_of_equal_texels(t, x, y, t.texel(tx, ty));
}

/// Where the sample position has no fractional part in texel units, the
/// sample is the texel one texel size up and to the left, unchanged: the
/// blend weights of the other three texels are zero.
pub proof fn lemma_sample_without_fraction(t: TexelGrid, x: int, y: int)
    requires
        fraction_spec(x * t.width) == 0,
        fraction_spec(y * t.height) == 0,
    ensures
        t.sample_pixel(x, y) == t.get_pixel(x - texel_size_spec(t.width), y - texel_size_spec(t.height)),
{
    let ix = texel_size_spec(t.width);
    let iy = texel_size_spec(t.height);
    let tl = t.get_pixel(x - ix, y - iy);
    let bl = t.get_pixel(x - ix, y + iy);
    let br = t.get_pixel(x + ix, y + iy);
    let tr = t.get_pixel(x + ix, y - iy);
    assert((br.0 - bl.0) * 0 == 0 && (br.1 - bl.1) * 0 == 0 && (br.2 - bl.2) * 0 == 0 && (br.3
        - bl.3) * 0 == 0);
    assert((tr.0 - tl.0) * 0 == 0 && (tr.1 - tl.1) * 0 == 0 && (tr.2 - tl.2) * 0 == 0 && (tr.3
        - tl.3) * 0 == 0);
    lemma_texel_in_range(
        t,
        texel_index_spec(x - ix, t.width),
        texel_index_spec(y - iy, t.height),
    );
    lemma_texel_in_range(
        t,
        texel_index_spec(x - ix, t.width),
        texel_index_spec(y + iy, t.height),
    );
}

/// The color value of a byte lies between zero and one.
pub proof fn lemma_channel_in_range(byte: int)
    requires
        0 <= byte <= 255,
    ensures
        0 <= channel_spec(byte) < 65536,
{
}

impl View for Texture {
    type V = TexelGrid;

    closed spec fn view(&self) -> TexelGrid {
        TexelGrid {
            data: self.data@,
            width: self.width as int,
            height: self.height as int,
            channel_count: self.channel_count as int,
        }
    }
}

impl Texture {
    /// The texture is usable: see [`TexelGrid::wf`].
    pub open spec fn wf(&self) -> bool {
        self@.wf()
    }

    /// Makes a texture of a decoded image, or says why the image cannot be
    /// used: see [`defect_spec`].
    pub fn new(data: Vec<u8>, width: u32, height: u32, channel_count: usize) -> (r: Result<
        Texture,
        TextureError,
    >)
        ensures
            match r {
                Ok(t) => {
                    &&& defect_spec(
                        data@.len() as int,
                        width as int,
                        height as int,
                        channel_count as int,
                    ).is_none()
                    &&& t.wf()
                    &&& t@ == (TexelGrid {
                        data: data@,
                        width: width as int,
                        height: height as int,
                        channel_count: channel_count as int,
                    })
                },
                Err(e) => defect_spec(
                    data@.len() as int,
                    width as int,
                    height as int,
                    channel_count as int,
                ) == Some(e),
            },
    {
        match defect(data.len(), width, height, channel_count) {
            Some(e) => Err(e),
            None => Ok(Texture { data, width, height, channel_count }),
        }
    }

    /// Whether the texture is usable.
    pub fn check(&self) -> (ok: bool)
        ensures
            ok == self.wf(),
    {
        defect(self.data.len(), self.width, self.height, self.channel_count).is_none()
    }

    /// The number of texels in a row.
    pub fn width(&self) -> (w: u32)
        ensures
            w == self@.width,
    {
        self.width
    }

    /// The number of rows.
    pub fn height(&self) -> (h: u32)
        ensures
            h == self@.height,
    {
        self.height
    }

    /// The number of bytes of a texel.
    pub fn channel_count(&self) -> (c: usize)
        ensures
            c == self@.channel_count,
    {
        self.channel_count
    }

    /// The raw color value of the byte at position `i`.
    fn channel(&self, i: usize) -> (c: i32)
        requires
            i < self@.data.len(),
        ensures
            c == channel_spec(self@.data[i as int] as int),
    {
        let byte: u32 = self.data[i] as u32;
        ((byte * 6553600) / 25599) as i32
    }

    /// The index of the texel under the raw coordinate `t` along an axis of
    /// `size` texels.
    fn texel_index(t: i64, size: u32) -> (i: usize)
        requires
            size >= 2,
            -0x1_0000_0000 <= t <= 0x1_0000_0000,
        ensures
            i == texel_index_spec(t as int, size as int),
            i < size - 1,
    {
        proof {
            lemma_mul_bounded(t as int, size as int, 0x1_0000_0000, 0xffff_ffff);
        }
        let whole: i128 = div_floor((t as i128) * (size as i128), 65536);
        mod_floor(whole, (size - 1) as i128) as usize
    }

    /// The color of the texel under the raw coordinates `(x, y)`.
    fn fetch(&self, x: i64, y: i64) -> (c: Vec4)
        requires
            self.wf(),
            -0x1_0000_0000 <= x <= 0x1_0000_0000,
            -0x1_0000_0000 <= y <= 0x1_0000_0000,
        ensures
            c@ == self@.get_pixel(x as int, y as int),
    {
        let tx: usize = Self::texel_index(x, self.width);
        let ty: usize = Self::texel_index(y, self.height);
        proof {
            lemma_texel_in_buffer(
                self.width as int,
                self.height as int,
                self.channel_count as int,
                tx as int,
                ty as int,
            );
        }
        let base: usize = (ty * (self.width as usize) + tx) * self.channel_count;
        let r: i32 = self.channel(base);
        let g: i32 = self.channel(base + 1);
        let b: i32 = self.channel(base + 2);
        let a: i32 = if self.channel_count == 4 {
            self.channel(base + 3)
        } else {
            0
        };
        Vec4 { x: r, y: g, z: b, w: a }
    }

    /// The color of the texel under the coordinates `(x, y)`, where the
    /// image spans `[0, 1]` along both axes.  Coordinates are rounded down
    /// to a texel and wrap modulo the size less one.
    pub fn get_pixel(&self, x: i32, y: i32) -> (c: Vec4)
        requires
            self.wf(),
        ensures
            c@ == self@.get_pixel(x as int, y as int),
    {
        self.fetch(x as i64, y as i64)
    }

    /// The bilinear sample at the coordinates `(x, y)`.
    pub fn sample_pixel(&self, x: i32, y: i32) -> (c: Vec4)
        requires
            self.wf(),
        ensures
            c@ == self@.sample_pixel(x as int, y as int),
    {
        let ix: i64 = (65536 / self.width) as i64;
        let iy: i64 = (65536 / self.height) as i64;
        let x: i64 = x as i64;
        let y: i64 = y as i64;
        let tl: Vec4 = self.fetch(x - ix, y - iy);
        let bl: Vec4 = self.fetch(x - ix, y + iy);
        let br: Vec4 = self.fetch(x + ix, y + iy);
        let tr: Vec4 = self.fetch(x + ix, y - iy);
        let dx: i32 = Self::fraction(x, self.width);
        let dy: i32 = Self::fraction(y, self.height);
        let bottom: Vec4 = bl.lerp(&br, dx);
        let top: Vec4 = tl.lerp(&tr, dx);
        top.lerp(&bottom, dy)
    }

    /// The fractional part of `t * size`.
    fn fraction(t: i64, size: u32) -> (f: i32)
        requires
            -0x8000_0000 <= t <= 0x8000_0000,
        ensures
            f == fraction_spec(t * size),
    {
        proof {
            lemma_mul_bounded(t as int, size as int, 0x8000_0000, 0xffff_ffff);
        }
        mod_floor((t as i128) * (size as i128), 65536) as i32
    }
}

} // verus!
