//! The library's model of encoder-backend configuration: the geometry,
//! profile, preset and buffer-format vocabulary the concrete backends are
//! driven with, and the buffer-size arithmetic of the raw input surfaces.
//! What only a vendor SDK can compute stays outside; everything here is
//! plain data with exact contracts.

use vstd::prelude::*;

verus! {

/// The kind of graphics adapter an encoder may live on.
#[derive(Clone, Copy, Debug, PartialEq, Eq, Hash, Structural)]
pub enum AdapterType {
    /// Discrete graphics adapter.
    Discrete,
    /// Integrated graphics adapter.
    Integrated,
    /// Unknown type.
    Unknown,
}

/// Raw pixel layout of an encoder input surface.
#[derive(Clone, Copy, Debug, PartialEq, Eq, Structural)]
pub enum InputFormat {
    /// `Y` followed by a single interleaved `UV` plane.
    NV12,
    /// Three bytes per pixel, `BGR` in memory.
    RGB3,
    /// Four bytes per pixel, `BGRA` in memory.
    RGB4,
}

/// The byte size a raw surface of this format occupies at the given
/// aligned geometry.
pub open spec fn spec_buffer_size(format: InputFormat, width: u32, height: u32) -> int {
    let pixels = (width as int) * (height as int);
    match format {
        InputFormat::NV12 => pixels + pixels / 2,
        InputFormat::RGB3 => pixels * 3,
        InputFormat::RGB4 => pixels * 4,
    }
}

impl InputFormat {
    /// The byte size a raw surface of this format occupies at the given
    /// aligned geometry.
    pub fn buffer_size(&self, buffer_width: u32, buffer_height: u32) -> (r: usize)
        requires
            4 * (buffer_width as int) * (buffer_height as int) <= usize::MAX,
        ensures
            r == spec_buffer_size(*self, buffer_width, buffer_height),
    {
        proof {
            assert((buffer_width as int) * (buffer_height as int) >= 0 && 4 * (
            buffer_width as int) * (buffer_height as int) == (buffer_width as int) * (
            buffer_height as int) * 4) by (nonlinear_arith);
        }
        let pixels = (buffer_width as u64) * (buffer_height as u64);
        let bytes: u64 = match self {
            InputFormat::NV12 => pixels + pixels / 2,
            InputFormat::RGB3 => pixels * 3,
            InputFormat::RGB4 => pixels * 4,
        };
        bytes as usize
    }
}

/// Rounds up to the next multiple of 32, as surface geometry must be
/// aligned before sizing buffers.
pub fn align32(x: u16) -> (r: u16)
    requires
        x <= 0xFFE0,
    ensures
        r % 32 == 0,
        x <= r < x + 32,
{
    let r = (x + 31) & !31u16;
    proof {
        assert(r % 32 == 0 && x <= r < x + 32) by (bit_vector)
            requires
                r == (((x + 31) as u16) & !31u16) && x <= 0xFFE0u16,
        ;
    }
    r
}

/// H.264 profile vocabulary of the integrated-graphics encoder path.
#[derive(Clone, Copy, Debug, PartialEq, Eq, Hash, Structural)]
pub enum H264Profile {
    Baseline,
    Main,
    Extended,
    High,
    High10,
    High422,
    ConstrainedBaseline,
    ConstrainedHigh,
}

/// Rate-control choice of the integrated-graphics encoder path.
#[derive(Clone, Copy, Debug, PartialEq, Eq, Structural)]
pub enum RateControlMethod {
    /// Maintain a constant bitrate, in bits per second.
    ConstantBitrate { target_bitrate: u32 },
    /// Constant subjective quality; 1 is best, 51 worst.
    IntelligentConstantQuality { quality: u8 },
}

impl RateControlMethod {
    /// Whether the parameters lie in their documented ranges: a positive
    /// bitrate, or a quality level between 1 and 51.
    pub fn is_valid(&self) -> (r: bool)
        ensures
            r == match *self {
                RateControlMethod::ConstantBitrate { target_bitrate } => target_bitrate > 0,
                RateControlMethod::IntelligentConstantQuality { quality } => 1 <= quality
                    <= 51,
            },
    {
        match self {
            RateControlMethod::ConstantBitrate { target_bitrate } => *target_bitrate > 0,
            RateControlMethod::IntelligentConstantQuality { quality } => 1 <= *quality && *quality
                <= 51,
        }
    }
}

/// Rate-control choice of the discrete-graphics encoder path.
#[derive(Clone, Copy, Debug, PartialEq, Eq, Structural)]
pub enum RateControlMode {
    /// Maintain this average bitrate.
    ConstantBitrate { average: u32 },
    /// Vary around `average`, optionally capped.
    VariableBitrate { average: u32, max: Option<u32> },
    /// Fixed quantization per frame kind.
    ConstantQp { inter_p: u32, inter_b: u32, intra: u32 },
    /// Target quality level between 1 (best) and 51, optionally capped.
    TargetQuality { quality: Option<u8>, max: Option<u32> },
}

/// Codec profile vocabulary of the discrete-graphics encoder path.
#[derive(Clone, Copy, Debug, PartialEq, Eq, Structural)]
pub enum Profile {
    Auto,
    H264Baseline,
    H264Main,
    H264High,
    H264High444,
    H264Stereo,
    H264ProgressiveHigh,
    H264ConstrainedHigh,
    HEVCMain,
    HEVCMain10,
    /// For the 444 8-bit and 444 10-bit profiles only.
    HEVCFRExt,
}

/// Encoder preset ladder: performance degrades and quality improves from
/// `P1` towards `P7`.
#[derive(Clone, Copy, Debug, PartialEq, Eq, Structural)]
pub enum Preset {
    P1,
    P2,
    P3,
    P4,
    P5,
    P6,
    P7,
}

/// What the encoder is tuned for.
#[derive(Clone, Copy, Debug, PartialEq, Eq, Structural)]
pub enum TuningInfo {
    HighQuality,
    LowLatency,
    UltraLowLatency,
    Lossless,
}

/// Raw buffer layouts the discrete-graphics encoder accepts.
#[derive(Clone, Copy, Debug, PartialEq, Eq, Hash, Structural)]
pub enum BufferFormat {
    /// Semi-planar YUV: `Y` plane followed by an interleaved `UV` plane.
    NV12,
    /// Planar YUV: `Y` plane followed by `V` and `U` planes.
    YV12,
    /// Planar YUV: `Y` plane followed by `U` and `V` planes.
    IYUV,
    /// Planar YUV with full-resolution chroma.
    YUV444,
    /// 10-bit semi-planar YUV, two bytes per sample.
    YUV420P10,
    /// 10-bit planar YUV with full-resolution chroma.
    YUV444P10,
    /// Packed 8-bit `ARGB`, one 32-bit word per pixel.
    ARGB,
    /// Packed 10-bit `A2R10G10B10`, one 32-bit word per pixel.
    ARGB10,
    /// Packed 8-bit `AYUV`, one 32-bit word per pixel.
    AYUV,
}

/// Channel layout of the audio encoder.
#[derive(Clone, Copy, Debug, PartialEq, Eq, Structural)]
pub enum Channels {
    Mono,
    Stereo,
}

impl Channels {
    /// How many channels the layout carries.
    pub fn count(&self) -> (r: u8)
        ensures
            r == match *self {
                Channels::Mono => 1u8,
                Channels::Stereo => 2u8,
            },
    {
        match self {
            Channels::Mono => 1,
            Channels::Stereo => 2,
        }
    }
}

/// Compressed video formats the media-transform encoder path can target.
#[derive(Clone, Copy, Debug, PartialEq, Eq, Structural)]
pub enum VideoFormat {
    H264,
    HEVC,
}

/// A read-only view of one surface plane: its bytes and the stride the
/// encoder laid it out with.
pub struct Plane<'data> {
    /// The plane's bytes.
    pub data: &'data [u8],
    /// The stride, in bytes, of one row.
    pub line_size: usize,
}

impl<'data> Plane<'data> {
    /// Wraps a borrowed plane.
    pub fn new(data: &'data [u8], line_size: usize) -> (p: Plane<'data>)
        ensures
            p.data@ == data@,
            p.line_size == line_size,
    {
        Plane { data, line_size }
    }

    /// The plane's bytes.
    pub fn data(&self) -> (r: &[u8])
        ensures
            r@ == self.data@,
    {
        self.data
    }

    /// The stride, in bytes, of one row.
    pub fn line_size(&self) -> (r: usize)
        ensures
            r == self.line_size,
    {
        self.line_size
    }
}

/// A writable surface plane: its bytes and the stride the encoder demands.
pub struct PlaneMut {
    /// The plane's bytes.
    pub data: Vec<u8>,
    /// The stride, in bytes, of one row.
    pub line_size: usize,
}

impl PlaneMut {
    /// Wraps an owned plane buffer.
    pub fn new(data: Vec<u8>, line_size: usize) -> (p: PlaneMut)
        ensures
            p.data@ == data@,
            p.line_size == line_size,
    {
        PlaneMut { data, line_size }
    }

    /// The plane's bytes.
    pub fn data(&self) -> (r: &Vec<u8>)
        ensures
            r@ == self.data@,
    {
        &self.data
    }

    /// Overwrites the plane's bytes, keeping the stride.
    pub fn fill(&mut self, data: Vec<u8>)
        ensures
            final(self).data@ == data@,
            final(self).line_size == old(self).line_size,
    {
        self.data = data;
    }

    /// The stride, in bytes, of one row.
    pub fn line_size(&self) -> (r: usize)
        ensures
            r == self.line_size,
    {
        self.line_size
    }
}

/// Output information about one encoded frame.
#[derive(Clone, Copy, Debug, PartialEq, Eq, Structural)]
pub struct Picture {
    /// Whether the frame is a keyframe.
    pub keyframe: bool,
    /// Presentation timestamp.
    pub pts: i64,
    /// Decoding timestamp.
    pub dts: i64,
}

impl Picture {
    /// A blank picture: no keyframe, zero timestamps.
    pub fn new() -> (p: Picture)
        ensures
            p == (Picture { keyframe: false, pts: 0, dts: 0 }),
    {
        Picture { keyframe: false, pts: 0, dts: 0 }
    }

    /// Whether the picture is a keyframe.
    pub fn keyframe(&self) -> (r: bool)
        ensures
            r == self.keyframe,
    {
        self.keyframe
    }

    /// The presentation timestamp.
    pub fn pts(&self) -> (r: i64)
        ensures
            r == self.pts,
    {
        self.pts
    }

    /// The decoding timestamp.
    pub fn dts(&self) -> (r: i64)
        ensures
            r == self.dts,
    {
        self.dts
    }
}

} // verus!
