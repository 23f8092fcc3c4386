//! Run settings: face size, tone-map operator, output format, and the checks of
//! the low-dynamic-range output stage.
use vstd::prelude::*;
use crate::raster::{CHANNELS, DimensionError, dims_fit};

verus! {

/// Settings of one conversion.
#[derive(Debug, Clone, Copy, PartialEq, Eq, Structural)]
pub struct ConvertOptions {
    /// Edge length of every cube face, in pixels.
    pub face_size: u32,
}

/// The tone-map operator applied before 8-bit output.
#[derive(Debug, Clone, Copy, PartialEq, Eq, Structural)]
pub enum ToneMapType {
    Reinhard,
    Aces,
    Khronos,
    Agx,
    /// No operator: each channel is clamped to `[0, 1]`.
    Passthrough,
}

/// The container the cross layout is written to.
#[derive(Debug, Clone, Copy, PartialEq, Eq, Structural)]
pub enum OutputFormat {
    Png,
    Exr,
}

/// The encoder of high-dynamic-range output: the float raster goes to the
/// container as it is, with no tone mapping.
#[derive(Debug, Clone, Copy, PartialEq, Eq, Structural)]
pub struct ExrEncoder;

impl OutputFormat {
    /// Whether output in this format is tone mapped and quantized to 8 bits;
    /// high-dynamic-range output keeps the float raster unchanged.
    pub fn quantizes(self) -> (r: bool)
        ensures
            r == (self == OutputFormat::Png),
    {
        match self {
            OutputFormat::Png => true,
            OutputFormat::Exr => false,
        }
    }
}

/// The number of channel values an 8-bit output of a `width` by `height`
/// raster holds, checked against a float source buffer of `raw_len` values:
/// `Overflow` when the count does not fit in `usize`, `ShortBuffer` when the
/// source holds fewer values than that.
pub fn ldr_buffer_len(width: u32, height: u32, raw_len: usize) -> (r: Result<usize, DimensionError>)
    ensures
        match r {
            Ok(n) => {
                &&& dims_fit(width as int, height as int)
                &&& n == width * height * 3
                &&& raw_len >= n
            },
            Err(DimensionError::Overflow) => !dims_fit(width as int, height as int),
            Err(DimensionError::ShortBuffer { expected, found }) => {
                &&& dims_fit(width as int, height as int)
                &&& expected == width * height * 3
                &&& found == raw_len
                &&& raw_len < expected
            },
        },
{
    let pixels = crate::raster::pixel_count(width, height)?;
    let expected = pixels * CHANNELS;
    if raw_len < expected {
        return Err(DimensionError::ShortBuffer { expected, found: raw_len });
    }
    Ok(expected)
}

} // verus!
