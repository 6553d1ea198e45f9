//! Pixel converters: turn a layout-agnostic color value into the bytes of
//! one pixel of the frame buffer, at a byte position the caller has proved
//! in bounds.

use vstd::prelude::*;

verus! {

use crate::render::Color;

/// The supported buffer-specific pixel layouts.
#[derive(Clone, Copy, Debug, PartialEq, Eq, Structural)]
pub enum ConverterKind {
    /// Blue, green, red: three bytes per pixel.
    Bgr24,
    /// Reserved byte, then blue, green, red: four bytes per pixel.
    Bgr32,
}

/// Bytes one pixel occupies under the given converter.
pub open spec fn converter_bytes(kind: ConverterKind) -> int {
    match kind {
        ConverterKind::Bgr24 => 3,
        ConverterKind::Bgr32 => 4,
    }
}

/// Whether `bytes` holds `color` at byte position `pos` in the layout of
/// `kind`.
pub open spec fn converter_writes(kind: ConverterKind, bytes: Seq<u8>, pos: int, color: Color) -> bool {
    &&& 0 <= pos
    &&& pos + converter_bytes(kind) <= bytes.len()
    &&& match kind {
        ConverterKind::Bgr24 => {
            &&& bytes[pos] == color.blue
            &&& bytes[pos + 1] == color.green
            &&& bytes[pos + 2] == color.red
        },
        ConverterKind::Bgr32 => {
            &&& bytes[pos] == 0
            &&& bytes[pos + 1] == color.blue
            &&& bytes[pos + 2] == color.green
            &&& bytes[pos + 3] == color.red
        },
    }
}

/// A converter that writes nothing.
pub fn no_op(pos: usize, buffer: &mut Vec<u8>, color: Color)
    ensures
        final(buffer)@ == old(buffer)@,
{
}

/// Writes `color` as blue, green, red at `pos`.
pub fn bgr_24(pos: usize, buffer: &mut Vec<u8>, color: Color)
    requires
        pos + 3 <= old(buffer)@.len(),
    ensures
        final(buffer)@.len() == old(buffer)@.len(),
        converter_writes(ConverterKind::Bgr24, final(buffer)@, pos as int, color),
        forall|i: int|
            0 <= i < old(buffer)@.len() && !(pos <= i < pos + 3) ==> final(buffer)@[i]
                == old(buffer)@[i],
{
    let _n: usize = buffer.len();
    buffer[pos] = color.blue;
    buffer[pos + 1] = color.green;
    buffer[pos + 2] = color.red;
}

/// Writes `color` as a reserved zero byte, then blue, green, red at `pos`.
/// The first byte stays empty on 32-bit graphics-output-protocol buffers.
pub fn bgr_32(pos: usize, buffer: &mut Vec<u8>, color: Color)
    requires
        pos + 4 <= old(buffer)@.len(),
    ensures
        final(buffer)@.len() == old(buffer)@.len(),
        converter_writes(ConverterKind::Bgr32, final(buffer)@, pos as int, color),
        forall|i: int|
            0 <= i < old(buffer)@.len() && !(pos <= i < pos + 4) ==> final(buffer)@[i]
                == old(buffer)@[i],
{
    let _n: usize = buffer.len();
    buffer[pos] = 0;
    buffer[pos + 1] = color.blue;
    buffer[pos + 2] = color.green;
    buffer[pos + 3] = color.red;
}

/// Applies the chosen converter at byte position `pos`.
pub fn apply_converter(kind: ConverterKind, pos: usize, buffer: &mut Vec<u8>, color: Color)
    requires
        pos + converter_bytes(kind) <= old(buffer)@.len(),
    ensures
        final(buffer)@.len() == old(buffer)@.len(),
        converter_writes(kind, final(buffer)@, pos as int, color),
        forall|i: int|
            0 <= i < old(buffer)@.len() && !(pos <= i < pos + converter_bytes(kind))
                ==> final(buffer)@[i] == old(buffer)@[i],
{
    match kind {
        ConverterKind::Bgr24 => bgr_24(pos, buffer, color),
        ConverterKind::Bgr32 => bgr_32(pos, buffer, color),
    }
}

} // verus!
