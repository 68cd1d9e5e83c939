//! Pixel data of a native icon, and its conversion to RGBA.

use vstd::prelude::*;

verus! {

/// The colour bitmap of an icon as the system hands it out: rows from top to
/// bottom, `stride` bytes from one row to the next, four bytes per pixel in
/// the order blue, green, red, alpha.
#[derive(Clone, Debug, PartialEq)]
pub struct Bitmap {
    pub width: u32,
    pub height: u32,
    pub stride: usize,
    pub bits: Vec<u8>,
}

/// Where channel `c` of an RGBA pixel stands within a BGRA pixel.
pub open spec fn bgra_position(c: int) -> int {
    if c == 0 {
        2
    } else if c == 2 {
        0
    } else {
        c
    }
}

/// Byte `k` of the RGBA image of a bitmap `width` pixels wide.
pub open spec fn rgba_byte(bits: Seq<u8>, width: int, stride: int, k: int) -> u8 {
    let pixel = k / 4;
    let x = pixel % width;
    let y = pixel / width;
    bits[y * stride + 4 * x + bgra_position(k % 4)]
}

/// The RGBA image of a bitmap: its pixels row by row, without padding.
pub open spec fn rgba_of(bits: Seq<u8>, width: int, height: int, stride: int) -> Seq<u8> {
    Seq::new((4 * width * height) as nat, |k: int| rgba_byte(bits, width, stride, k))
}

/// Whether the four bytes of every pixel lie within `len` bytes.
pub open spec fn pixels_within(len: int, width: int, height: int, stride: int) -> bool {
    width == 0 || height == 0 || (height - 1) * stride + 4 * width <= len
}

impl Bitmap {
    /// Whether the bitmap can be converted: every pixel lies within `bits`,
    /// and the image fits in memory.
    pub open spec fn convertible(&self) -> bool {
        &&& pixels_within(
            self.bits@.len() as int,
            self.width as int,
            self.height as int,
            self.stride as int,
        )
        &&& 4 * self.width * self.height <= usize::MAX
    }

    /// The RGBA image of the bitmap.
    pub open spec fn rgba(&self) -> Seq<u8> {
        rgba_of(self.bits@, self.width as int, self.height as int, self.stride as int)
    }

    /// Converts the bitmap from BGRA to RGBA, dropping the padding of its
    /// rows. Fails when a pixel lies outside the data.
    pub fn to_rgba(&self) -> (r: Option<Vec<u8>>)
        ensures
            match r {
                Some(pixels) => self.convertible() && pixels@ == self.rgba(),
                None => !self.convertible(),
            },
    {
        let width: u128 = self.width as u128;
        let height: u128 = self.height as u128;
        let stride: u128 = self.stride as u128;
        let len: u128 = self.bits.len() as u128;
        assert(width * height <= 0xFFFF_FFFF * 0xFFFF_FFFF) by (nonlinear_arith)
            requires
                0 <= width <= 0xFFFF_FFFF,
                0 <= height <= 0xFFFF_FFFF,
        ;
        assert(4 * self.width * self.height == 4 * (width * height)) by (nonlinear_arith)
            requires
                width == self.width,
                height == self.height,
        ;
        if 4 * (width * height) > usize::MAX as u128 {
            return None;
        }
        let mut pixels: Vec<u8> = Vec::new();
        if self.width == 0 || self.height == 0 {
            assert(4 * (width * height) == 0) by (nonlinear_arith)
                requires
                    width == 0 || height == 0,
            ;
            assert(pixels@ == self.rgba());
            return Some(pixels);
        }
        assert((height - 1) * stride <= 0xFFFF_FFFF * 0xFFFF_FFFF_FFFF_FFFF) by (nonlinear_arith)
            requires
                0 <= height - 1 <= 0xFFFF_FFFF,
                0 <= stride <= 0xFFFF_FFFF_FFFF_FFFF,
        ;
        if (height - 1) * stride + 4 * width > len {
            return None;
        }
        let count: usize = (width * height) as usize;
        let w: usize = self.width as usize;
        let mut p: usize = 0;
        while p < count
            invariant
                p <= count,
                count == self.width * self.height,
                w == self.width,
                w > 0,
                4 * count <= usize::MAX,
                self.bits@.len() <= usize::MAX,
                (self.height - 1) * self.stride + 4 * self.width <= self.bits@.len(),
                pixels@.len() == 4 * p,
                forall|k: int|
                    0 <= k < 4 * p ==> pixels@[k] == rgba_byte(
                        self.bits@,
                        self.width as int,
                        self.stride as int,
                        k,
                    ),
            decreases count - p,
        {
            let x: usize = p % w;
            let y: usize = p / w;
            assert(y <= self.height - 1) by (nonlinear_arith)
                requires
                    y == p as int / w as int,
                    p < self.width * self.height,
                    w == self.width,
                    w > 0,
            ;
            assert(y * self.stride <= (self.height - 1) * self.stride) by (nonlinear_arith)
                requires
                    0 <= y <= self.height - 1,
                    0 <= self.stride,
            ;
            assert(0 <= y * self.stride) by (nonlinear_arith)
                requires
                    0 <= y,
                    0 <= self.stride,
            ;
            assert(x < w);
            assert(y * self.stride + 4 * x + 4 <= self.bits@.len());
            let at: usize = y * self.stride + 4 * x;
            let ghost before = pixels@;
            pixels.push(self.bits[at + 2]);
            pixels.push(self.bits[at + 1]);
            pixels.push(self.bits[at]);
            pixels.push(self.bits[at + 3]);
            assert forall|k: int| 0 <= k < 4 * (p + 1) implies pixels@[k] == rgba_byte(
                self.bits@,
                self.width as int,
                self.stride as int,
                k,
            ) by {
                if k < 4 * p {
                    assert(pixels@[k] == before[k]);
                } else {
                    assert(k / 4 == p);
                }
            }
            p += 1;
        }
        assert(pixels@ =~= self.rgba()) by {
            assert(4 * self.width * self.height == 4 * count) by (nonlinear_arith)
                requires
                    count == self.width * self.height,
            ;
        }
        Some(pixels)
    }
}

/// Chooses among the large icons that the system extracted from an
/// executable: the first one whose handle is not null. `present` tells for
/// each handle, in the order of extraction, whether it is not null.
pub fn first_large_icon(present: &Vec<bool>) -> (chosen: Option<usize>)
    ensures
        match chosen {
            Some(i) => i < present.len() && present@[i as int] && forall|j: int|
                0 <= j < i ==> !present@[j],
            None => forall|j: int| 0 <= j < present.len() ==> !present@[j],
        },
{
    let mut i: usize = 0;
    while i < present.len()
        invariant
            i <= present.len(),
            forall|j: int| 0 <= j < i ==> !present@[j],
        decreases present.len() - i,
    {
        if present[i] {
            return Some(i);
        }
        i += 1;
    }
    None
}

} // verus!
