//! The unit of distribution: one encoded access unit with its timing.

use dcv_color_primitives as dcp;
use vstd::prelude::*;

verus! {

/// One encoded access unit as handed to every consumer: the compressed
/// bytes, the capture timestamp (milliseconds on the session clock) and the
/// expected presentation duration (microseconds).
pub struct Sample {
    pub data: Vec<u8>,
    pub timestamp_ms: u64,
    pub duration_us: u64,
}

/// Mathematical image of a [`Sample`].
pub ghost struct SampleView {
    pub data: Seq<u8>,
    pub timestamp_ms: u64,
    pub duration_us: u64,
}

impl View for Sample {
    type V = SampleView;

    open spec fn view(&self) -> SampleView {
        SampleView {
            data: self.data@,
            timestamp_ms: self.timestamp_ms,
            duration_us: self.duration_us,
        }
    }
}

impl Sample {
    /// Wraps one encoder output unit; the bytes are copied once here and
    /// shared by all consumers afterwards.
    pub fn new(data: &[u8], timestamp_ms: u64, duration_us: u64) -> (s: Sample)
        ensures
            s@ == (SampleView { data: data@, timestamp_ms, duration_us }),
    {
        Sample { data: vstd::slice::slice_to_vec(data), timestamp_ms, duration_us }
    }

    /// Age of this sample at `now_ms`, for latency accounting; `None` when
    /// the clock reads earlier than the capture instant.
    pub fn record_end_to_end_latency(&self, now_ms: u64) -> (r: Option<u64>)
        ensures
            r == if now_ms >= self.timestamp_ms {
                Some((now_ms - self.timestamp_ms) as u64)
            } else {
                None::<u64>
            },
    {
        if now_ms >= self.timestamp_ms {
            Some(now_ms - self.timestamp_ms)
        } else {
            None
        }
    }
}

impl Clone for Sample {
    fn clone(&self) -> (s: Sample)
        ensures
            s@ == self@,
    {
        let data = self.data.clone();
        proof {
            assert(data@ =~= self.data@);
        }
        Sample { data, timestamp_ms: self.timestamp_ms, duration_us: self.duration_us }
    }
}

} // verus!

verus! {

/// Why a raw frame could not be converted for the encoder.
#[derive(Clone, Copy, Debug, PartialEq, Eq, Structural)]
pub enum ConvertError {
    /// The colour-conversion library rejected the operation.
    ConversionFailed,
}

/// The NV12 image — the luma plane followed by the interleaved chroma
/// plane, both at the frame's own stride — of a BGRA frame, as the
/// colour-conversion library computes it (BT.709 matrix).
pub uninterp spec fn nv12_of(width: u32, height: u32, bgra: Seq<u8>) -> Seq<u8>;

/// Relies on `dcv_color_primitives::convert_image` (after `initialize`):
/// with the planes pinned to their exact sizes — a `width * height` luma
/// plane followed by a half-size chroma plane, both at the frame's own
/// stride — the conversion writes every byte of `dst` and is a function of
/// geometry and pixels alone; it accepts exactly the even geometries.
#[verifier::external_body]
fn convert_bgra_to_nv12(width: u32, height: u32, src: &[u8], dst: &mut Vec<u8>, y_len: usize)
    -> (r: Result<(), ConvertError>)
    requires
        src@.len() == 4 * width * height,
        y_len == width * height,
        old(dst)@.len() == width * height + (width * height) / 2,
    ensures
        final(dst)@.len() == old(dst)@.len(),
        r.is_ok() ==> final(dst)@ == nv12_of(width, height, src@),
        width % 2 == 0 && height % 2 == 0 ==> r.is_ok(),
{
    let src_fmt = dcp::ImageFormat {
        pixel_format: dcp::PixelFormat::Bgra,
        color_space: dcp::ColorSpace::Rgb,
        num_planes: 1,
    };
    let dst_fmt = dcp::ImageFormat {
        pixel_format: dcp::PixelFormat::Nv12,
        color_space: dcp::ColorSpace::Bt709,
        num_planes: 2,
    };
    dcp::initialize();
    let (y, uv) = dst.split_at_mut(y_len);
    dcp::convert_image(width, height, &src_fmt, None, &[src], &dst_fmt, None, &mut [y, uv])
        .map_err(|_| ConvertError::ConversionFailed)
}

/// Converts one BGRA frame into a fresh NV12 buffer sized for the frame:
/// the luma plane followed by the half-size chroma plane. Succeeds on
/// every even geometry, the only ones the NV12 layout admits.
pub fn bgra2nv12(width: u32, height: u32, src: &[u8]) -> (r: Result<Vec<u8>, ConvertError>)
    requires
        src@.len() == 4 * width * height,
    ensures
        width % 2 == 0 && height % 2 == 0 ==> r is Ok,
        match r {
            Ok(buf) => {
                &&& buf@ == nv12_of(width, height, src@)
                &&& buf@.len() == (width as int) * (height as int) + ((width as int) * (
                height as int)) / 2
            },
            Err(_) => true,
        },
{
    proof {
        assert((width as int) * (height as int) >= 0 && 4 * ((width as int) * (height as int))
            == 4 * (width as int) * (height as int)) by (nonlinear_arith);
    }
    let pixels = (src.len() / 4) as u64;
    proof {
        assert(pixels == (width as int) * (height as int));
    }
    let y_len = pixels as usize;
    let total = (pixels + pixels / 2) as usize;
    let mut dst = vec![0u8; total];
    match convert_bgra_to_nv12(width, height, src, &mut dst, y_len) {
        Ok(()) => Ok(dst),
        Err(e) => Err(e),
    }
}

} // verus!
