//! The computation of a tile: from the pixels of a picture to packed
//! colours.
use crate::fractal::{compute_fractal_color, fractal_color, FractalParams};
use crate::math::{to_u32, to_u32_spec, Complex, Number, Real, Scalar, UVec2, Vec2, Vec3};
use vstd::arithmetic::div_mod::lemma_fundamental_div_mod_converse;
use vstd::prelude::*;

verus! {

/// What a tile is computed from: the corners of the region of the plane
/// that it shows, and the parameters of the fractal. The first pixel of
/// the picture lies at `min_pos`.
#[derive(Copy, Clone)]
pub struct Params<S: Scalar> {
    pub min_pos: Vec2<S>,
    pub max_pos: Vec2<S>,
    pub fractal: FractalParams<S>,
}

impl<S: Scalar> Params<S> {
    pub open spec fn default_spec() -> Self {
        Params {
            min_pos: Vec2 { x: S::from_decimal(-2i32, 0), y: S::from_decimal(-2i32, 0) },
            max_pos: Vec2 { x: S::from_decimal(2, 0), y: S::from_decimal(2, 0) },
            fractal: FractalParams::default_spec(),
        }
    }
}

impl<S: Scalar> Default for Params<S> {
    /// The square from -2 to 2, with the default fractal.
    fn default() -> (r: Self)
        ensures
            r == Self::default_spec(),
    {
        Params {
            min_pos: Vec2::splat(S::from_decimal(-2, 0)),
            max_pos: Vec2::splat(S::from_decimal(2, 0)),
            fractal: FractalParams::default(),
        }
    }
}

impl<S: Scalar> Params<S> where S::Single: Scalar<Single = S::Single> {
    pub open spec fn narrow_spec(self) -> Params<S::Single> {
        Params {
            min_pos: self.min_pos.to_single(),
            max_pos: self.max_pos.to_single(),
            fractal: self.fractal.narrow(),
        }
    }

    /// The same parameters in single precision, field by field.
    #[verifier::when_used_as_spec(narrow_spec)]
    pub fn narrow(self) -> (r: Params<S::Single>)
        ensures
            r == self.narrow_spec(),
    {
        Params {
            min_pos: self.min_pos.to_single(),
            max_pos: self.max_pos.to_single(),
            fractal: self.fractal.narrow(),
        }
    }

    pub open spec fn widen_spec(value: Params<S::Single>) -> Self {
        Params {
            min_pos: Vec2::from_single(value.min_pos),
            max_pos: Vec2::from_single(value.max_pos),
            fractal: FractalParams::widen(value.fractal),
        }
    }

    /// Single-precision parameters in the precision of `S`, field by field.
    #[verifier::when_used_as_spec(widen_spec)]
    pub fn widen(value: Params<S::Single>) -> (r: Self)
        ensures
            r == Self::widen_spec(value),
    {
        Params {
            min_pos: Vec2::from_single(value.min_pos),
            max_pos: Vec2::from_single(value.max_pos),
            fractal: FractalParams::widen(value.fractal),
        }
    }

    /// Widening is lossless: parameters widened and narrowed again are the
    /// parameters one started with.
    pub proof fn lemma_widen_then_narrow(value: Params<S::Single>)
        ensures
            Self::widen_spec(value).narrow_spec() == value,
    {
        S::widen_is_exact(value.min_pos.x);
        S::widen_is_exact(value.min_pos.y);
        S::widen_is_exact(value.max_pos.x);
        S::widen_is_exact(value.max_pos.y);
        FractalParams::<S>::lemma_widen_then_narrow(value.fractal);
    }
}

/// A colour part as a byte count: the integer part of `color * 255.5`, not
/// below zero.
pub open spec fn color_to_byte_spec<V: Real>(color: V) -> u32 {
    to_u32_spec(color.mul(V::from_decimal(2555, -1i32)))
}

/// Turns a colour part, from 0 to 1, into a number from 0 to 255. A part
/// above 1 gives a number above 255.
#[verifier::when_used_as_spec(color_to_byte_spec)]
pub fn color_to_byte<V: Real>(color: V) -> (byte: u32)
    ensures
        byte == color_to_byte_spec(color),
{
    to_u32(color.mul(V::from_decimal(2555, -1)))
}

/// The three parts of a colour in one word: red from bit 16, green from bit
/// 8, blue from bit 0, under an alpha of `0xff`.
pub open spec fn pack_color_spec(r: u32, g: u32, b: u32) -> u32 {
    (r << 16) | (g << 8) | b | 0xff00_0000
}

/// Packs the three parts of a colour under an opaque alpha.
#[verifier::when_used_as_spec(pack_color_spec)]
pub fn pack_color(r: u32, g: u32, b: u32) -> (word: u32)
    ensures
        word == pack_color_spec(r, g, b),
{
    (r << 16) | (g << 8) | b | 0xff00_0000
}

/// A packed colour is always opaque.
pub proof fn lemma_packed_alpha(r: u32, g: u32, b: u32)
    ensures
        pack_color_spec(r, g, b) >> 24 == 0xff,
{
    assert(((r << 16) | (g << 8) | b | 0xff00_0000u32) >> 24 == 0xff) by (bit_vector);
}

/// Parts that fit in a byte can be read back from the packed colour.
pub proof fn lemma_packed_channels(r: u32, g: u32, b: u32)
    requires
        r <= 255,
        g <= 255,
        b <= 255,
    ensures
        (pack_color_spec(r, g, b) >> 16) & 0xff == r,
        (pack_color_spec(r, g, b) >> 8) & 0xff == g,
        pack_color_spec(r, g, b) & 0xff == b,
{
    assert(r <= 255 && g <= 255 && b <= 255 ==> ((((r << 16) | (g << 8) | b | 0xff00_0000u32)
        >> 16) & 0xff == r && (((r << 16) | (g << 8) | b | 0xff00_0000u32) >> 8) & 0xff == g && ((r
        << 16) | (g << 8) | b | 0xff00_0000u32) & 0xff == b)) by (bit_vector);
}

/// The point of the plane at the relative position `uv` of the region of
/// `params`: `min_pos + uv * (max_pos - min_pos)`.
pub open spec fn uv_position<S: Scalar>(uv: Vec2<S>, params: Params<S>) -> Vec2<S> {
    params.min_pos.add(uv.mul(params.max_pos.sub(params.min_pos)))
}

/// The colour at the relative position `uv`.
pub open spec fn run_uv_spec<S: Scalar>(uv: Vec2<S>, params: Params<S>) -> Vec3<S::Single> {
    let pos = uv_position(uv, params);
    fractal_color(Complex { re: pos.x, im: pos.y }, params.fractal)
}

/// Computes the colour at the relative position `uv`, from `(0, 0)` at
/// `min_pos` to `(1, 1)` at `max_pos`.
#[verifier::when_used_as_spec(run_uv_spec)]
pub fn run_uv<S: Scalar>(uv: Vec2<S>, params: Params<S>) -> (color: Vec3<S::Single>)
    ensures
        color == run_uv_spec(uv, params),
{
    let pos = params.min_pos.add(uv.mul(params.max_pos.sub(params.min_pos)));
    compute_fractal_color(Complex::from_vector(pos), params.fractal)
}

/// The relative position of the centre of the pixel `id` in a picture of
/// the given size: `(id + 0.5) / size`, part by part.
pub open spec fn pixel_uv<S: Real>(id: UVec2, size: UVec2) -> Vec2<S> {
    let half = S::from_decimal(5, -1i32);
    Vec2 {
        x: S::from_int(id.x as i64).add(half).div(S::from_int(size.x as i64)),
        y: S::from_int(id.y as i64).add(half).div(S::from_int(size.y as i64)),
    }
}

/// The packed colour of the pixel `id`.
pub open spec fn run_spec<S: Scalar>(id: UVec2, size: UVec2, params: Params<S>) -> u32 {
    let color = run_uv_spec(pixel_uv(id, size), params);
    pack_color_spec(
        color_to_byte_spec(color.x),
        color_to_byte_spec(color.y),
        color_to_byte_spec(color.z),
    )
}

/// Computes the packed colour of the pixel `id` of a picture of `size`
/// pixels, sampled at the centre of the pixel.
#[verifier::when_used_as_spec(run_spec)]
pub fn run<S: Scalar>(id: UVec2, size: UVec2, params: Params<S>) -> (word: u32)
    ensures
        word == run_spec(id, size, params),
        word >> 24 == 0xff,
{
    let half = S::from_decimal(5, -1);
    let uv = Vec2::new(
        S::from_int(id.x as i64).add(half),
        S::from_int(id.y as i64).add(half),
    ).div(Vec2::new(S::from_int(size.x as i64), S::from_int(size.y as i64)));
    let color = run_uv(uv, params);
    let r = color_to_byte(color.x);
    let g = color_to_byte(color.y);
    let b = color_to_byte(color.z);
    proof {
        lemma_packed_alpha(r, g, b);
    }
    pack_color(r, g, b)
}

/// The row alignment that copies into a texture ask for, counted in pixels
/// of four bytes: 256 bytes.
pub const ROW_ALIGNMENT: u32 = 64;

/// The least multiple of `alignment` that is not below `value`.
pub open spec fn align_to_spec(value: u32, alignment: u32) -> int {
    if value % alignment == 0 {
        value as int
    } else {
        value + alignment - value % alignment
    }
}

/// What `align_to_spec` is: a multiple of the alignment, not below the
/// value and less than one alignment above it.
pub proof fn lemma_align_to(value: u32, alignment: u32)
    requires
        alignment > 0,
    ensures
        align_to_spec(value, alignment) % (alignment as int) == 0,
        value <= align_to_spec(value, alignment) < value + alignment,
{
    let remainder = value % alignment;
    vstd::arithmetic::div_mod::lemma_mod_decreases(value as nat, alignment as nat);
    if remainder != 0 {
        let q = (value / alignment) as int;
        let aligned = value + alignment - remainder;
        assert(value == q * alignment + remainder) by {
            vstd::arithmetic::div_mod::lemma_fundamental_div_mod(value as int, alignment as int);
            assert(alignment * q == q * alignment) by (nonlinear_arith);
        }
        assert(aligned == (q + 1) * alignment + 0) by (nonlinear_arith)
            requires
                aligned == value + alignment - remainder,
                value == q * alignment + remainder,
        ;
        lemma_fundamental_div_mod_converse(aligned, alignment as int, q + 1, 0);
    }
}

/// `wgpu::util::align_to`, at `u32`: it returns `value` where `value` is a
/// multiple of `alignment`, and `value + alignment - value % alignment`
/// where it is not. The sum `value + alignment` must fit, and the alignment
/// must not be zero.
#[verifier::external_body]
fn align_to(value: u32, alignment: u32) -> (aligned: u32)
    requires
        alignment > 0,
        value % alignment == 0 || value + alignment <= u32::MAX,
    ensures
        aligned == align_to_spec(value, alignment),
{
    wgpu::util::align_to(value, alignment)
}

/// Computes tiles on the processor, pixel by pixel, into rows that are
/// padded to the alignment of texture copies.
#[derive(Clone, Copy, Debug)]
pub struct ThreadedCompute {
    /// The size of a tile, in pixels.
    pub texture_size: UVec2,
    /// The length of a row of the buffer, in pixels: the width of a tile,
    /// rounded up to the row alignment.
    pub aligned_width: u32,
}

/// The place of the pixel `(x, y)` in a buffer whose rows are
/// `aligned_width` pixels long.
pub open spec fn pixel_place(x: int, y: int, aligned_width: u32) -> int {
    x + y * aligned_width
}

/// What stands at the place `index` of the buffer of a tile once the tile
/// is computed: the colour of a pixel, where the place is that of a pixel,
/// and what stood there before, where it is padding. The place `index`
/// is that of the pixel in the column `index % aligned_width` of the row
/// `index / aligned_width`.
pub open spec fn buffer_entry<S: Scalar>(
    before: Seq<u32>,
    texture_size: UVec2,
    aligned_width: u32,
    params: Params<S>,
    index: int,
) -> u32 {
    let x = index % (aligned_width as int);
    let y = index / (aligned_width as int);
    if aligned_width > 0 && 0 <= x < texture_size.x && 0 <= y < texture_size.y {
        run_spec(UVec2 { x: x as u32, y: y as u32 }, texture_size, params)
    } else {
        before[index]
    }
}

impl ThreadedCompute {
    /// The rows are long enough for a tile and aligned.
    pub open spec fn wf(&self) -> bool {
        &&& self.aligned_width == align_to_spec(self.texture_size.x, ROW_ALIGNMENT)
        &&& self.texture_size.x <= self.aligned_width
    }

    /// The number of pixels, padding included, that the buffer of a tile
    /// holds.
    pub open spec fn buffer_len(&self) -> int {
        self.aligned_width * self.texture_size.y
    }

    /// A computer of tiles of the given size. The width must leave room
    /// for the padding of a row, unless it needs none.
    pub fn new(texture_size: UVec2) -> (this: Self)
        requires
            texture_size.x % ROW_ALIGNMENT == 0 || texture_size.x + ROW_ALIGNMENT <= u32::MAX,
        ensures
            this.wf(),
            this.texture_size == texture_size,
    {
        let aligned_width = align_to(texture_size.x, ROW_ALIGNMENT);
        proof {
            lemma_align_to(texture_size.x, ROW_ALIGNMENT);
        }
        ThreadedCompute { texture_size, aligned_width }
    }

    /// Computes the tile of `params` into `data`, row after row from the
    /// first: the pixel `(x, y)` goes to the place `x + y * aligned_width`.
    /// The padding at the end of each row, and what lies behind the last
    /// row, is left as it is.
    pub fn do_compute<S: Scalar>(&self, data: &mut Vec<u32>, params: Params<S>)
        requires
            self.wf(),
            old(data)@.len() >= self.buffer_len(),
        ensures
            final(data)@.len() == old(data)@.len(),
            forall|index: int|
                0 <= index < final(data)@.len() ==> #[trigger] final(data)@[index] == buffer_entry(
                    old(data)@,
                    self.texture_size,
                    self.aligned_width,
                    params,
                    index,
                ),
            forall|x: int, y: int|
                0 <= x < self.texture_size.x && 0 <= y < self.texture_size.y ==> final(data)@[#[trigger] pixel_place(x, y, self.aligned_width)] == run_spec(
                    UVec2 { x: x as u32, y: y as u32 },
                    self.texture_size,
                    params,
                ),
    {
        let width = self.texture_size.x;
        let height = self.texture_size.y;
        let stride = self.aligned_width;
        let ghost before = data@;
        if width == 0 {
            return ;
        }
        let mut y: u32 = 0;
        proof {
            assert forall|index: int| 0 <= index < data@.len() implies #[trigger] data@[index]
                == (if index / (stride as int) < y {
                buffer_entry(before, self.texture_size, stride, params, index)
            } else {
                before[index]
            }) by {
                vstd::arithmetic::div_mod::lemma_div_pos_is_pos(index, stride as int);
            }
        }
        while y < height
            invariant
                self.wf(),
                width == self.texture_size.x,
                height == self.texture_size.y,
                stride == self.aligned_width,
                0 < width <= stride,
                y <= height,
                data@.len() == before.len(),
                before.len() >= stride * height,
                forall|index: int|
                    0 <= index < data@.len() ==> #[trigger] data@[index] == (if index / (
                    stride as int) < y {
                        buffer_entry(before, self.texture_size, stride, params, index)
                    } else {
                        before[index]
                    }),
            decreases height - y,
        {
            let mut x: u32 = 0;
            proof {
                assert forall|index: int| 0 <= index < data@.len() implies #[trigger] data@[index]
                    == (if index / (stride as int) < y || (index / (stride as int) == y && index % (
                stride as int) < x) {
                    buffer_entry(before, self.texture_size, stride, params, index)
                } else {
                    before[index]
                }) by {
                    vstd::arithmetic::div_mod::lemma_mod_pos_bound(index, stride as int);
                }
            }
            while x < width
                invariant
                    self.wf(),
                    width == self.texture_size.x,
                    height == self.texture_size.y,
                    stride == self.aligned_width,
                    0 < width <= stride,
                    y < height,
                    x <= width,
                    data@.len() == before.len(),
                    before.len() >= stride * height,
                    forall|index: int|
                        0 <= index < data@.len() ==> #[trigger] data@[index] == (if index / (
                        stride as int) < y || (index / (stride as int) == y && index % (
                        stride as int) < x) {
                            buffer_entry(before, self.texture_size, stride, params, index)
                        } else {
                            before[index]
                        }),
                decreases width - x,
            {
                proof {
                    assert(y * stride <= 0xffff_ffff * 0xffff_ffff) by (nonlinear_arith)
                        requires
                            0 <= y <= 0xffff_ffff,
                            0 <= stride <= 0xffff_ffff,
                    ;
                    assert(y * stride + stride <= height * stride) by (nonlinear_arith)
                        requires
                            y < height,
                            stride >= 0,
                    ;
                    assert(height * stride == stride * height) by (nonlinear_arith);
                }
                let place: u64 = x as u64 + y as u64 * stride as u64;
                proof {
                    lemma_fundamental_div_mod_converse(
                        place as int,
                        stride as int,
                        y as int,
                        x as int,
                    );
                }
                let length = data.len();
                assert(place < length);
                let word = run(UVec2 { x, y }, self.texture_size, params);
                let ghost previous = data@;
                data.set(place as usize, word);
                proof {
                    assert forall|index: int| 0 <= index < data@.len() implies #[trigger] data@[index]
                        == (if index / (stride as int) < y || (index / (stride as int) == y && index
                        % (stride as int) < x + 1) {
                        buffer_entry(before, self.texture_size, stride, params, index)
                    } else {
                        before[index]
                    }) by {
                        if index != place {
                            assert(data@[index] == previous[index]);
                            if index / (stride as int) == y && index % (stride as int) == x {
                                vstd::arithmetic::div_mod::lemma_fundamental_div_mod(
                                    index,
                                    stride as int,
                                );
                                assert(stride * y == y * stride) by (nonlinear_arith);
                            }
                        }
                    }
                }
                x = x + 1;
            }
            proof {
                assert forall|index: int| 0 <= index < data@.len() implies #[trigger] data@[index]
                    == (if index / (stride as int) < y + 1 {
                    buffer_entry(before, self.texture_size, stride, params, index)
                } else {
                    before[index]
                }) by {
                    if index / (stride as int) == y && !(index % (stride as int) < width) {
                        assert(buffer_entry(before, self.texture_size, stride, params, index)
                            == before[index]);
                    }
                }
            }
            y = y + 1;
        }
        proof {
            assert forall|index: int| 0 <= index < data@.len() implies #[trigger] data@[index]
                == buffer_entry(before, self.texture_size, stride, params, index) by {
                if !(index / (stride as int) < height) {
                    assert(buffer_entry(before, self.texture_size, stride, params, index)
                        == before[index]);
                }
            }
            assert forall|x: int, y: int| 0 <= x < width && 0 <= y < height implies data@[
                #[trigger] pixel_place(x, y, stride)] == run_spec(
                UVec2 { x: x as u32, y: y as u32 },
                self.texture_size,
                params,
            ) by {
                assert(y * stride + stride <= height * stride) by (nonlinear_arith)
                    requires
                        y < height,
                        stride >= 0,
                ;
                assert(height * stride == stride * height) by (nonlinear_arith);
                assert(0 <= y * stride) by (nonlinear_arith)
                    requires
                        0 <= y,
                        0 <= stride,
                ;
                lemma_fundamental_div_mod_converse(x + y * stride, stride as int, y, x);
            }
        }
    }
}

} // verus!
