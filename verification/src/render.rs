//! The frame buffer view: a back buffer of plain bytes drawn into by the
//! kernel and blitted to the hardware frame buffer by the shell. Pixel
//! writes are bounds-proved against the boot-reported geometry, so no write
//! ever lands in the row padding or past the buffer.

use vstd::prelude::*;

verus! {

use crate::pixel::{ConverterKind, apply_converter, converter_bytes, converter_writes};

/// An RGB color value.
#[derive(Debug, Default, Copy, Clone, Ord, PartialOrd, Eq, PartialEq, Hash, Structural)]
pub struct Color {
    pub red: u8,
    pub green: u8,
    pub blue: u8,
}

impl Color {
    pub fn new(red: u8, green: u8, blue: u8) -> (r: Color)
        ensures
            r == (Color { red, green, blue }),
    {
        Color { red, green, blue }
    }
}

impl core::convert::From<(u8, u8, u8)> for Color {
    fn from(value: (u8, u8, u8)) -> (r: Color) {
        Color { red: value.0, green: value.1, blue: value.2 }
    }
}

impl vstd::std_specs::convert::FromSpecImpl<(u8, u8, u8)> for Color {
    open spec fn obeys_from_spec() -> bool {
        true
    }

    open spec fn from_spec(value: (u8, u8, u8)) -> Color {
        Color { red: value.0, green: value.1, blue: value.2 }
    }
}

/// The boot-reported pixel layout of the frame buffer.
#[derive(Clone, Copy, Debug, PartialEq, Eq, Structural)]
pub enum PixelFormat {
    Rgb,
    Bgr,
    Grayscale,
    Unknown,
}

/// The boot-reported frame buffer geometry, every length in its original
/// unit: `width`, `height` and `stride` in pixels, `bytes_per_pixel` and
/// `byte_len` in bytes.
#[derive(Clone, Copy, Debug, PartialEq, Eq, Structural)]
pub struct FrameBufferInfo {
    pub byte_len: usize,
    pub width: usize,
    pub height: usize,
    pub stride: usize,
    pub bytes_per_pixel: usize,
    pub pixel_format: PixelFormat,
}

impl FrameBufferInfo {
    /// Consistent geometry: rows of `stride` pixels hold the `width`
    /// visible ones, and the buffer holds all rows.
    pub open spec fn wf(self) -> bool {
        &&& self.width <= self.stride
        &&& self.height * self.stride * self.bytes_per_pixel <= self.byte_len
    }
}

/// The converter for a boot-reported layout: 24-bit and 32-bit
/// blue-green-red layouts are supported, and no other.
pub open spec fn converter_for_spec(format: PixelFormat, bytes_per_pixel: usize) -> Option<
    ConverterKind,
> {
    if format == PixelFormat::Bgr && bytes_per_pixel == 3 {
        Some(ConverterKind::Bgr24)
    } else if format == PixelFormat::Bgr && bytes_per_pixel == 4 {
        Some(ConverterKind::Bgr32)
    } else {
        None
    }
}

/// Picks the pixel converter matching the boot-reported layout; reports an
/// unsupported layout rather than guessing.
pub fn converter_for(format: PixelFormat, bytes_per_pixel: usize) -> (r: Option<ConverterKind>)
    ensures
        r == converter_for_spec(format, bytes_per_pixel),
{
    if format == PixelFormat::Bgr && bytes_per_pixel == 3 {
        Some(ConverterKind::Bgr24)
    } else if format == PixelFormat::Bgr && bytes_per_pixel == 4 {
        Some(ConverterKind::Bgr32)
    } else {
        None
    }
}

/// A back buffer over the frame buffer's geometry. The kernel draws here;
/// the shell copies the bytes to the hardware buffer in one sweep.
pub struct BufView {
    info: FrameBufferInfo,
    converter: ConverterKind,
    buffer: Vec<u8>,
}

impl BufView {
    /// The boot-reported geometry.
    pub closed spec fn info_spec(self) -> FrameBufferInfo {
        self.info
    }

    /// The pixel converter in use.
    pub closed spec fn converter_spec(self) -> ConverterKind {
        self.converter
    }

    /// The back buffer's bytes.
    pub closed spec fn bytes(self) -> Seq<u8> {
        self.buffer@
    }

    /// The view's geometry is consistent, the buffer has exactly the
    /// reported length, and the converter matches the reported layout.
    pub open spec fn wf(self) -> bool {
        &&& self.info_spec().wf()
        &&& self.bytes().len() == self.info_spec().byte_len
        &&& converter_for_spec(self.info_spec().pixel_format, self.info_spec().bytes_per_pixel)
            == Some(self.converter_spec())
        &&& converter_bytes(self.converter_spec()) == self.info_spec().bytes_per_pixel
    }

    /// First byte of the pixel at `(x, y)`.
    pub open spec fn pixel_base(self, x: int, y: int) -> int {
        (y * self.info_spec().stride + x) * self.info_spec().bytes_per_pixel
    }

    /// Whether the bytes of the pixel at `(x, y)` hold `color`, laid out by
    /// the view's converter.
    pub open spec fn pixel_is(self, x: int, y: int, color: Color) -> bool {
        converter_writes(self.converter_spec(), self.bytes(), self.pixel_base(x, y), color)
    }

    /// Builds a cleared back buffer over the reported geometry; fails
    /// exactly on a layout no converter supports.
    pub fn from_info(info: FrameBufferInfo) -> (r: Option<BufView>)
        requires
            info.wf(),
        ensures
            r is Some <==> converter_for_spec(info.pixel_format, info.bytes_per_pixel) is Some,
            r matches Some(v) ==> {
                &&& v.wf()
                &&& v.info_spec() == info
                &&& v.bytes().len() == info.byte_len
                &&& forall|i: int| 0 <= i < v.bytes().len() ==> v.bytes()[i] == 0
            },
    {
        match converter_for(info.pixel_format, info.bytes_per_pixel) {
            None => None,
            Some(converter) => {
                let mut buffer: Vec<u8> = Vec::new();
                let mut i: usize = 0;
                while i < info.byte_len
                    invariant
                        i <= info.byte_len,
                        buffer@.len() == i,
                        forall|j: int| 0 <= j < i ==> buffer@[j] == 0,
                    decreases info.byte_len - i,
                {
                    buffer.push(0);
                    i += 1;
                }
                Some(BufView { info, converter, buffer })
            },
        }
    }

    /// The geometry the view was built over.
    pub fn info(&self) -> (r: FrameBufferInfo)
        ensures
            r == self.info_spec(),
    {
        self.info
    }

    /// Width in pixels.
    pub fn width(&self) -> (r: usize)
        ensures
            r == self.info_spec().width,
    {
        self.info.width
    }

    /// Height in pixels.
    pub fn height(&self) -> (r: usize)
        ensures
            r == self.info_spec().height,
    {
        self.info.height
    }

    /// The pixel converter in use.
    pub fn pixel_converter(&self) -> (r: ConverterKind)
        ensures
            r == self.converter_spec(),
    {
        self.converter
    }

    /// The back buffer, for the shell's sweep into the hardware buffer.
    pub fn buffer(&self) -> (r: &Vec<u8>)
        ensures
            r@ == self.bytes(),
    {
        &self.buffer
    }

    /// Writes one pixel. Only the bytes of that pixel change.
    pub fn set_pixel(&mut self, pos: (usize, usize), color: Color)
        requires
            old(self).wf(),
            pos.0 < old(self).info_spec().width,
            pos.1 < old(self).info_spec().height,
        ensures
            final(self).wf(),
            final(self).info_spec() == old(self).info_spec(),
            final(self).converter_spec() == old(self).converter_spec(),
            final(self).bytes().len() == old(self).bytes().len(),
            final(self).pixel_is(pos.0 as int, pos.1 as int, color),
            forall|i: int|
                0 <= i < old(self).bytes().len() && !(old(self).pixel_base(
                    pos.0 as int,
                    pos.1 as int,
                ) <= i < old(self).pixel_base(pos.0 as int, pos.1 as int)
                    + old(self).info_spec().bytes_per_pixel) ==> final(self).bytes()[i]
                    == old(self).bytes()[i],
    {
        let (x, y) = pos;
        let info = self.info;
        proof {
            lemma_pixel_in_bounds(info, x as int, y as int);
        }
        let index = (y * info.stride + x) * info.bytes_per_pixel;
        apply_converter(self.converter, index, &mut self.buffer, color);
    }

    /// Sets every visible pixel to `color`; the row padding is untouched.
    pub fn clear(&mut self, color: Color)
        requires
            old(self).wf(),
        ensures
            final(self).wf(),
            final(self).info_spec() == old(self).info_spec(),
            final(self).converter_spec() == old(self).converter_spec(),
            final(self).bytes().len() == old(self).bytes().len(),
            forall|x: int, y: int|
                0 <= x < old(self).info_spec().width && 0 <= y < old(self).info_spec().height
                    ==> final(self).pixel_is(x, y, color),
    {
        let width = self.info.width;
        let height = self.info.height;
        let mut y: usize = 0;
        #[verifier::loop_isolation(false)]
        while y < height
            invariant
                y <= height,
                self.wf(),
                self.info_spec() == old(self).info_spec(),
                self.converter_spec() == old(self).converter_spec(),
                self.bytes().len() == old(self).bytes().len(),
                forall|a: int, b: int|
                    0 <= a < width && 0 <= b < y ==> self.pixel_is(a, b, color),
            decreases height - y,
        {
            let mut x: usize = 0;
            #[verifier::loop_isolation(false)]
            while x < width
                invariant
                    x <= width,
                    y < height,
                    self.wf(),
                    self.info_spec() == old(self).info_spec(),
                    self.converter_spec() == old(self).converter_spec(),
                    self.bytes().len() == old(self).bytes().len(),
                    forall|a: int, b: int|
                        0 <= a < width && 0 <= b < y ==> self.pixel_is(a, b, color),
                    forall|a: int| 0 <= a < x ==> self.pixel_is(a, y as int, color),
                decreases width - x,
            {
                let ghost prev = *self;
                self.set_pixel((x, y), color);
                proof {
                    let info = prev.info_spec();
                    assert forall|a: int, b: int|
                        (0 <= a < width && 0 <= b < y) || (b == y && 0 <= a < x) implies self
                        .pixel_is(a, b, color) by {
                        assert(prev.pixel_is(a, b, color));
                        assert((b * info.stride + a + 1) * info.bytes_per_pixel <= (y as int
                            * info.stride + x as int) * info.bytes_per_pixel || (y as int
                            * info.stride + x as int + 1) * info.bytes_per_pixel <= (b
                            * info.stride + a) * info.bytes_per_pixel) by (nonlinear_arith)
                            requires
                                0 <= a < info.width,
                                0 <= b < info.height,
                                0 <= (x as int) < info.width,
                                0 <= (y as int) < info.height,
                                info.width <= info.stride,
                                0 <= info.bytes_per_pixel,
                                a != x as int || b != y as int,
                        ;
                    }
                }
                x += 1;
            }
            y += 1;
        }
    }
}

/// The pixel at `(x, y)` lies wholly inside the buffer.
proof fn lemma_pixel_in_bounds(info: FrameBufferInfo, x: int, y: int)
    requires
        info.wf(),
        0 <= x < info.width,
        0 <= y < info.height,
    ensures
        (y * info.stride + x) * info.bytes_per_pixel + info.bytes_per_pixel <= info.byte_len,
        0 <= (y * info.stride + x) * info.bytes_per_pixel,
{
    assert((y * info.stride + x) * info.bytes_per_pixel + info.bytes_per_pixel <= info.height
        * info.stride * info.bytes_per_pixel) by (nonlinear_arith)
        requires
            0 <= x < info.width,
            0 <= y < info.height,
            info.width <= info.stride,
    ;
    assert(0 <= (y * info.stride + x) * info.bytes_per_pixel) by (nonlinear_arith)
        requires
            0 <= x,
            0 <= y,
            0 <= info.stride,
            0 <= info.bytes_per_pixel,
    ;
}

} // verus!
