//! Captured screen frames.
use crate::text::{decimal, is_blank, push_decimal, trim_seq};
use vstd::prelude::*;

verus! {

/// Pixel layouts accepted by the production decoder boundary.
#[derive(Clone, Copy, Debug, PartialEq, Eq, Structural)]
pub enum PixelFormat {
    /// Eight-bit red, green, blue, and alpha channels in byte order.
    Rgba8,
}

/// An in-memory screen capture.
///
/// The buffer is owned native memory and is never encoded or persisted by this
/// type. Dropping the value releases the pixels.
#[derive(Debug, PartialEq, Eq)]
pub struct CapturedFrame {
    width: u32,
    height: u32,
    format: PixelFormat,
    stride_bytes: usize,
    pixels: Vec<u8>,
    /// Optional diagnostic label for the monitor captured.
    monitor_label: Option<String>,
    /// Optional display scaling factor (e.g. 100, 125, 150, 200).
    scale_factor_percent: Option<u32>,
}

/// Validation failures for captured pixel buffers.
#[derive(Clone, Copy, Debug, PartialEq, Eq, Structural)]
pub enum FrameError {
    /// A decoder frame must have non-zero width and height.
    ZeroDimension,
    /// Width, height, and channel count overflowed the host address space.
    DimensionsOverflow,
    /// The supplied byte length does not match the declared dimensions.
    InvalidBufferLength {
        /// Required byte count.
        expected: usize,
        /// Supplied byte count.
        actual: usize,
    },
    /// The frame uses row padding that must be removed by the adapter.
    UnsupportedStride {
        /// Required tightly packed byte stride.
        expected: usize,
        /// Supplied byte stride.
        actual: usize,
    },
}

/// The message of a frame validation failure.
pub open spec fn frame_error_text(e: FrameError) -> Seq<char> {
    match e {
        FrameError::ZeroDimension => "frame dimensions must be non-zero"@,
        FrameError::DimensionsOverflow => "frame dimensions overflow the address space"@,
        FrameError::InvalidBufferLength { expected, actual } => "frame requires "@ + decimal(
            expected as nat,
        ) + " bytes but received "@ + decimal(actual as nat),
        FrameError::UnsupportedStride { expected, actual } => "RGBA stride must be "@ + decimal(
            expected as nat,
        ) + " bytes but received "@ + decimal(actual as nat),
    }
}

impl FrameError {
    /// The user-safe message of this failure.
    pub fn to_string(&self) -> (r: String)
        ensures
            r@ == frame_error_text(*self),
    {
        match self {
            FrameError::ZeroDimension => String::from_str("frame dimensions must be non-zero"),
            FrameError::DimensionsOverflow => String::from_str("frame dimensions overflow the address space"),
            FrameError::InvalidBufferLength { expected, actual } => {
                let mut s = String::from_str("frame requires ");
                push_decimal(&mut s, *expected as u64);
                s.append(" bytes but received ");
                push_decimal(&mut s, *actual as u64);
                s
            },
            FrameError::UnsupportedStride { expected, actual } => {
                let mut s = String::from_str("RGBA stride must be ");
                push_decimal(&mut s, *expected as u64);
                s.append(" bytes but received ");
                push_decimal(&mut s, *actual as u64);
                s
            },
        }
    }
}

/// The outcome of validating a tightly packed RGBA frame with an explicit stride.
pub open spec fn strided_check(width: u32, height: u32, stride: usize, len: usize) -> Result<
    (),
    FrameError,
> {
    let packed = width * 4;
    if width == 0 || height == 0 {
        Err(FrameError::ZeroDimension)
    } else if packed > usize::MAX {
        Err(FrameError::DimensionsOverflow)
    } else if stride != packed {
        Err(FrameError::UnsupportedStride { expected: packed as usize, actual: stride })
    } else if stride * height > usize::MAX {
        Err(FrameError::DimensionsOverflow)
    } else if len != stride * height {
        Err(FrameError::InvalidBufferLength { expected: (stride * height) as usize, actual: len })
    } else {
        Ok(())
    }
}

/// The outcome of validating a tightly packed RGBA frame.
pub open spec fn packed_check(width: u32, height: u32, len: usize) -> Result<(), FrameError> {
    if width * 4 > usize::MAX {
        Err(FrameError::DimensionsOverflow)
    } else {
        strided_check(width, height, (width * 4) as usize, len)
    }
}

/// A packed RGBA frame is accepted exactly when both dimensions are non-zero and the
/// buffer holds exactly four bytes per pixel; a zero dimension is reported as such
/// (unless the row size alone already overflows the address space).
pub proof fn lemma_packed_frame_accepted(width: u32, height: u32, len: usize)
    ensures
        packed_check(width, height, len) is Ok <==> (width > 0 && height > 0 && len as int == width
            as int * height as int * 4),
        (width == 0 || (height == 0 && width as int * 4 <= usize::MAX)) ==> packed_check(
            width,
            height,
            len,
        ) == Err::<(), FrameError>(FrameError::ZeroDimension),
{
    let packed: int = width * 4;
    assert(packed * height == width as int * height as int * 4) by (nonlinear_arith)
        requires
            packed == width * 4,
    ;
    if packed > usize::MAX {
        if height > 0 {
            assert(packed * height >= packed) by (nonlinear_arith)
                requires
                    height >= 1,
                    packed >= 0,
            ;
        }
    } else {
        assert(strided_check(width, height, packed as usize, len) == packed_check(width, height, len));
    }
}

impl CapturedFrame {
    pub closed spec fn spec_width(&self) -> u32 {
        self.width
    }

    pub closed spec fn spec_height(&self) -> u32 {
        self.height
    }

    pub closed spec fn spec_format(&self) -> PixelFormat {
        self.format
    }

    pub closed spec fn spec_stride(&self) -> usize {
        self.stride_bytes
    }

    pub closed spec fn spec_pixels(&self) -> Seq<u8> {
        self.pixels@
    }

    pub closed spec fn spec_label(&self) -> Option<Seq<char>> {
        match self.monitor_label {
            Some(label) => Some(label@),
            None => None,
        }
    }

    pub closed spec fn spec_scale(&self) -> Option<u32> {
        self.scale_factor_percent
    }

    /// A frame that describes its buffer exactly.
    pub open spec fn holds(
        &self,
        width: u32,
        height: u32,
        stride: usize,
        pixels: Seq<u8>,
    ) -> bool {
        &&& self.spec_width() == width
        &&& self.spec_height() == height
        &&& self.spec_format() == PixelFormat::Rgba8
        &&& self.spec_stride() == stride
        &&& self.spec_pixels() == pixels
    }

    /// Creates a validated RGBA frame without copying the provided buffer.
    pub fn rgba8(width: u32, height: u32, pixels: Vec<u8>) -> (r: Result<Self, FrameError>)
        ensures
            packed_check(width, height, pixels.len()) matches Err(e) ==> r == Err::<
                CapturedFrame,
                FrameError,
            >(e),
            packed_check(width, height, pixels.len()) is Ok ==> (r matches Ok(f) && f.holds(
                width,
                height,
                (width * 4) as usize,
                pixels@,
            ) && f.spec_label() is None && f.spec_scale() is None),
    {
        let w = width as usize;
        let stride_bytes = match w.checked_mul(4) {
            Some(s) => s,
            None => return Err(FrameError::DimensionsOverflow),
        };
        Self::rgba8_strided(width, height, stride_bytes, pixels)
    }

    /// Creates a validated tightly packed RGBA frame with an explicit stride.
    ///
    /// Only tightly packed rows are supported: adapters must repack padded
    /// native rows before constructing a frame.
    pub fn rgba8_strided(width: u32, height: u32, stride_bytes: usize, pixels: Vec<u8>) -> (r:
        Result<Self, FrameError>)
        ensures
            strided_check(width, height, stride_bytes, pixels.len()) matches Err(e) ==> r == Err::<
                CapturedFrame,
                FrameError,
            >(e),
            strided_check(width, height, stride_bytes, pixels.len()) is Ok ==> (r matches Ok(f)
                && f.holds(width, height, stride_bytes, pixels@) && f.spec_label() is None
                && f.spec_scale() is None),
    {
        if width == 0 || height == 0 {
            return Err(FrameError::ZeroDimension);
        }
        let packed_stride = match (width as usize).checked_mul(4) {
            Some(s) => s,
            None => return Err(FrameError::DimensionsOverflow),
        };
        if stride_bytes != packed_stride {
            return Err(FrameError::UnsupportedStride { expected: packed_stride, actual: stride_bytes });
        }
        let expected = match stride_bytes.checked_mul(height as usize) {
            Some(e) => e,
            None => return Err(FrameError::DimensionsOverflow),
        };
        if pixels.len() != expected {
            return Err(FrameError::InvalidBufferLength { expected, actual: pixels.len() });
        }
        Ok(Self {
            width,
            height,
            format: PixelFormat::Rgba8,
            stride_bytes,
            pixels,
            monitor_label: None,
            scale_factor_percent: None,
        })
    }

    /// Creates a validated RGBA frame with optional diagnostic metadata; a blank
    /// label and a zero scale are dropped.
    pub fn rgba8_with_metadata(
        width: u32,
        height: u32,
        pixels: Vec<u8>,
        monitor_label: Option<String>,
        scale_factor_percent: Option<u32>,
    ) -> (r: Result<Self, FrameError>)
        ensures
            packed_check(width, height, pixels.len()) matches Err(e) ==> r == Err::<
                CapturedFrame,
                FrameError,
            >(e),
            packed_check(width, height, pixels.len()) is Ok ==> (r matches Ok(f) && f.holds(
                width,
                height,
                (width * 4) as usize,
                pixels@,
            ) && f.spec_label() == (match monitor_label {
                Some(label) => if trim_seq(label@).len() > 0 {
                    Some(label@)
                } else {
                    None::<Seq<char>>
                },
                None => None,
            }) && f.spec_scale() == (match scale_factor_percent {
                Some(factor) => if factor > 0 {
                    Some(factor)
                } else {
                    None::<u32>
                },
                None => None,
            })),
    {
        let mut frame = Self::rgba8(width, height, pixels)?;
        frame.monitor_label = match monitor_label {
            Some(label) => if is_blank(label.as_str()) {
                None
            } else {
                Some(label)
            },
            None => None,
        };
        frame.scale_factor_percent = match scale_factor_percent {
            Some(factor) => if factor > 0 {
                Some(factor)
            } else {
                None
            },
            None => None,
        };
        Ok(frame)
    }

    /// Returns the frame width in physical pixels.
    pub fn width(&self) -> (r: u32)
        ensures
            r == self.spec_width(),
    {
        self.width
    }

    /// Returns the frame height in physical pixels.
    pub fn height(&self) -> (r: u32)
        ensures
            r == self.spec_height(),
    {
        self.height
    }

    /// Returns the frame pixel layout.
    pub fn format(&self) -> (r: PixelFormat)
        ensures
            r == self.spec_format(),
    {
        self.format
    }

    /// Returns the validated byte distance between adjacent physical rows.
    pub fn stride_bytes(&self) -> (r: usize)
        ensures
            r == self.spec_stride(),
    {
        self.stride_bytes
    }

    /// Borrows the pixel buffer.
    pub fn pixels(&self) -> (r: &[u8])
        ensures
            r@ == self.spec_pixels(),
    {
        self.pixels.as_slice()
    }

    /// Returns the optional non-sensitive monitor label supplied by capture.
    pub fn monitor_label(&self) -> (r: Option<&str>)
        ensures
            r matches Some(s) ==> self.spec_label() == Some(s@),
            r is None ==> self.spec_label() is None,
    {
        match &self.monitor_label {
            Some(label) => Some(label.as_str()),
            None => None,
        }
    }

    /// Returns the optional display scaling percentage supplied by capture.
    pub fn scale_factor_percent(&self) -> (r: Option<u32>)
        ensures
            r == self.spec_scale(),
    {
        self.scale_factor_percent
    }
}

} // verus!
