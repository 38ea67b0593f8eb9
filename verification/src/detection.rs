//! Decoded QR-family symbols.
use crate::text::utf8_to_string;
use vstd::prelude::*;
use vstd::utf8::{decode_utf8, valid_utf8};

verus! {

/// A physical-pixel point in a captured frame.
#[derive(Clone, Copy, Debug, PartialEq, Eq, Structural)]
pub struct Point {
    /// Horizontal coordinate.
    pub x: i32,
    /// Vertical coordinate.
    pub y: i32,
}

/// QR-family symbology reported by the decoder.
#[derive(Clone, Copy, Debug, PartialEq, Eq, Structural)]
pub enum QrFormat {
    /// Standard QR Code, including model variants.
    QrCode,
    /// Micro QR Code.
    MicroQrCode,
    /// Rectangular Micro QR Code.
    RectangularMicroQrCode,
}

/// One typed QR detection returned by a decoder adapter.
#[derive(Clone, Debug, PartialEq, Eq)]
pub struct Detection {
    /// Exact decoded payload bytes where supplied by the engine.
    pub raw_bytes: Vec<u8>,
    /// UTF-8 interpretation when the payload is valid text.
    pub text: Option<String>,
    /// Detected QR-family format.
    pub format: QrFormat,
    /// Four corners in top-left, top-right, bottom-right, bottom-left order.
    pub corners: [Point; 4],
}

impl Detection {
    /// Constructs a detection while deriving its optional UTF-8 view.
    pub fn new(raw_bytes: Vec<u8>, format: QrFormat, corners: [Point; 4]) -> (r: Self)
        ensures
            r.raw_bytes@ == raw_bytes@,
            r.text is Some <==> valid_utf8(raw_bytes@),
            r.text matches Some(t) ==> t@ == decode_utf8(raw_bytes@),
            r.format == format,
            r.corners@ == corners@,
    {
        let text = utf8_to_string(raw_bytes.as_slice());
        Self { raw_bytes, text, format, corners }
    }
}

} // verus!
