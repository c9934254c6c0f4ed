//! What the machine sets limits to: the size of a tensor, which holds four
//! bytes for each element where an allocation holds at most `isize::MAX`
//! bytes, and the range of a binary32 number.

use vstd::prelude::*;

verus! {

/// Whether a tensor of `count` elements, four bytes each, fits in one
/// allocation. A larger one cannot be created: the allocation panics.
pub open spec fn elements_fit(count: int) -> bool {
    4 * count <= isize::MAX
}

/// Whether everything that the classifier computes from a stack of `batch`
/// images of `height` by `width` fits in memory: the feature maps, which hold
/// at most 64 elements for each pixel, and the rows of `hidden_size` and of
/// `num_classes` values for each image.
pub open spec fn batch_fits(
    batch: int,
    height: int,
    width: int,
    hidden_size: int,
    num_classes: int,
) -> bool {
    &&& elements_fit(64 * (batch * height * width))
    &&& elements_fit(batch * hidden_size)
    &&& elements_fit(batch * num_classes)
}

/// Whether `bits` encodes a finite binary32 number: one whose exponent bits
/// are not all set.
pub open spec fn encodes_finite(bits: u32) -> bool {
    bits & 0x7F80_0000 != 0x7F80_0000
}

/// Whether every one of the values, each the bits of a binary32 encoding, is
/// finite.
pub open spec fn values_finite(values: Seq<u32>) -> bool {
    forall|i: int| 0 <= i < values.len() ==> encodes_finite(#[trigger] values[i])
}

/// Whether `bits` encodes no number: all exponent bits are set, and some bit
/// of the fraction.
pub open spec fn encodes_nan(bits: u32) -> bool {
    bits & 0x7FFF_FFFF > 0x7F80_0000
}

/// The place of a binary32 number that is not a NaN in the order of the
/// numbers: its magnitude bits, counted below zero where the sign bit is set.
/// Both zeros have the place 0.
pub open spec fn float_place(bits: u32) -> int {
    if bits & 0x8000_0000 != 0 {
        -((bits & 0x7FFF_FFFF) as int)
    } else {
        bits as int
    }
}

/// Whether the binary32 number that `a` encodes is greater than the one that
/// `b` encodes. A NaN is neither greater nor less than anything.
pub open spec fn float_greater(a: u32, b: u32) -> bool {
    !encodes_nan(a) && !encodes_nan(b) && float_place(a) > float_place(b)
}

/// Whether `chosen` is a place in the row, and no number of the row is greater
/// than the one at that place.
pub open spec fn greatest_at(row: Seq<u32>, chosen: int) -> bool {
    &&& 0 <= chosen < row.len()
    &&& forall|j: int| 0 <= j < row.len() ==> !float_greater(#[trigger] row[j], row[chosen])
}

/// What a rectified-linear activation makes of a binary32 number: zero of a
/// number below zero, and the number itself of any other, a NaN and minus
/// zero included.
pub open spec fn rectified(bits: u32) -> u32 {
    if float_greater(0, bits) {
        0
    } else {
        bits
    }
}

/// What a rectified-linear activation makes of each of the numbers.
pub open spec fn all_rectified(values: Seq<u32>) -> Seq<u32> {
    Seq::new(values.len(), |i: int| rectified(values[i]))
}

/// The binary32 encoding of a whole number from 0 to 255. A number from `2^e`
/// up to `2^(e + 1)` has the exponent field `127 + e`, and what it holds
/// beyond `2^e` at the top of the fraction.
pub open spec fn float_of_pixel(pixel: u8) -> u32 {
    if pixel >= 128 {
        (0x4280_0000 + pixel * 0x1_0000) as u32
    } else if pixel >= 64 {
        (0x4200_0000 + pixel * 0x2_0000) as u32
    } else if pixel >= 32 {
        (0x4180_0000 + pixel * 0x4_0000) as u32
    } else if pixel >= 16 {
        (0x4100_0000 + pixel * 0x8_0000) as u32
    } else if pixel >= 8 {
        (0x4080_0000 + pixel * 0x10_0000) as u32
    } else if pixel >= 4 {
        (0x4000_0000 + pixel * 0x20_0000) as u32
    } else if pixel >= 2 {
        (0x3F80_0000 + pixel * 0x40_0000) as u32
    } else if pixel == 1 {
        0x3F80_0000
    } else {
        0
    }
}

/// The binary32 encodings of the pixels, one for one.
pub open spec fn floats_of_pixels(pixels: Seq<u8>) -> Seq<u32> {
    Seq::new(pixels.len(), |i: int| float_of_pixel(pixels[i]))
}

/// Computes `float_of_pixel`.
pub fn pixel_to_float(pixel: u8) -> (bits: u32)
    ensures
        bits == float_of_pixel(pixel),
{
    let p: u32 = pixel as u32;
    if pixel >= 128 {
        0x4280_0000 + p * 0x1_0000
    } else if pixel >= 64 {
        0x4200_0000 + p * 0x2_0000
    } else if pixel >= 32 {
        0x4180_0000 + p * 0x4_0000
    } else if pixel >= 16 {
        0x4100_0000 + p * 0x8_0000
    } else if pixel >= 8 {
        0x4080_0000 + p * 0x10_0000
    } else if pixel >= 4 {
        0x4000_0000 + p * 0x20_0000
    } else if pixel >= 2 {
        0x3F80_0000 + p * 0x40_0000
    } else if pixel == 1 {
        0x3F80_0000
    } else {
        0
    }
}

/// Tests `float_greater`.
pub fn is_greater(a: u32, b: u32) -> (r: bool)
    ensures
        r == float_greater(a, b),
{
    if a & 0x7FFF_FFFF > 0x7F80_0000 || b & 0x7FFF_FFFF > 0x7F80_0000 {
        return false;
    }
    let a_negative = a & 0x8000_0000 != 0;
    let b_negative = b & 0x8000_0000 != 0;
    let a_size = a & 0x7FFF_FFFF;
    let b_size = b & 0x7FFF_FFFF;
    if a_negative && b_negative {
        a_size < b_size
    } else if a_negative {
        false
    } else if b_negative {
        assert(a & 0x8000_0000 == 0 ==> a & 0x7FFF_FFFF == a) by (bit_vector);
        a_size > 0 || b_size > 0
    } else {
        assert(a & 0x8000_0000 == 0 ==> a & 0x7FFF_FFFF == a) by (bit_vector);
        assert(b & 0x8000_0000 == 0 ==> b & 0x7FFF_FFFF == b) by (bit_vector);
        a_size > b_size
    }
}

/// Whether every one of the values, each the bits of a binary32 encoding, is
/// finite.
pub fn all_finite(values: &Vec<u32>) -> (b: bool)
    ensures
        b == values_finite(values@),
{
    let mut i: usize = 0;
    while i < values.len()
        invariant
            i <= values@.len(),
            forall|k: int| 0 <= k < i ==> encodes_finite(#[trigger] values@[k]),
        decreases values@.len() - i,
    {
        if values[i] & 0x7F80_0000 == 0x7F80_0000 {
            return false;
        }
        i += 1;
    }
    true
}

/// Whether `count * factor` elements fit in one allocation.
pub fn product_fits(count: usize, factor: usize) -> (b: bool)
    ensures
        b == elements_fit(count * factor),
{
    let limit: usize = isize::MAX as usize / 4;
    if factor == 0 {
        assert(count * factor == 0) by (nonlinear_arith)
            requires
                factor == 0,
        ;
        return true;
    }
    assert(count <= limit / factor <==> count * factor <= limit) by (nonlinear_arith)
        requires
            factor >= 1,
    ;
    count <= limit / factor
}

/// Tests `batch_fits`.
pub fn batch_has_room(
    batch: usize,
    height: usize,
    width: usize,
    hidden_size: usize,
    num_classes: usize,
) -> (b: bool)
    ensures
        b == batch_fits(
            batch as int,
            height as int,
            width as int,
            hidden_size as int,
            num_classes as int,
        ),
{
    if !product_fits(batch, hidden_size) || !product_fits(batch, num_classes) {
        return false;
    }
    if batch == 0 || height == 0 || width == 0 {
        assert(batch * height * width == 0) by (nonlinear_arith)
            requires
                batch == 0 || height == 0 || width == 0,
        ;
        return true;
    }
    let rows = match batch.checked_mul(height) {
        Some(rows) => rows,
        None => {
            assert(batch * height * width >= batch * height) by (nonlinear_arith)
                requires
                    width >= 1,
                    batch * height >= 0,
            ;
            return false;
        },
    };
    let pixels = match rows.checked_mul(width) {
        Some(pixels) => pixels,
        None => {
            return false;
        },
    };
    assert(64 * (batch * height * width) == pixels * 64) by (nonlinear_arith)
        requires
            pixels == batch * height * width,
    ;
    product_fits(pixels, 64)
}

} // verus!
