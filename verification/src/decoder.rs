//! Offline QR-family decoding of captured frames with ZXing-C++.
use crate::capture::CapturedFrame;
use crate::detection::{Detection, Point, QrFormat};
use crate::ports::{DecoderPort, PortError};
use vstd::prelude::*;
use vstd::utf8::{decode_utf8, valid_utf8};
use zxingcpp::{BarcodeFormat, BarcodeReader, ImageFormat, ImageView};

verus! {

/// One symbol as the reader reported it.
#[derive(Clone, Debug, PartialEq, Eq)]
pub struct ReadSymbol {
    /// Whether the reader validated the symbol.
    pub valid: bool,
    /// Whether it is a Micro QR Code.
    pub micro: bool,
    /// Whether it is a Rectangular Micro QR Code.
    pub rectangular: bool,
    /// Decoded payload bytes.
    pub bytes: Vec<u8>,
    /// Corner coordinates in top-left, top-right, bottom-right, bottom-left order.
    pub corners: [(i32, i32); 4],
}

/// A reported symbol as plain values.
pub struct SymbolView {
    pub valid: bool,
    pub micro: bool,
    pub rectangular: bool,
    pub bytes: Seq<u8>,
    pub corners: Seq<(i32, i32)>,
}

impl View for ReadSymbol {
    type V = SymbolView;

    open spec fn view(&self) -> SymbolView {
        SymbolView {
            valid: self.valid,
            micro: self.micro,
            rectangular: self.rectangular,
            bytes: self.bytes@,
            corners: self.corners@,
        }
    }
}

/// What the ZXing-C++ reader gives for an RGBA image of these dimensions, configured for
/// the QR family with its thorough options: the symbols it reports, or the failing
/// operation and its message.
pub uninterp spec fn zxing_symbols(pixels: Seq<u8>, width: u32, height: u32) -> Result<
    Seq<SymbolView>,
    (Seq<char>, Seq<char>),
>;

/// The view of what the reader hands back.
pub open spec fn symbols_view(r: Result<Vec<ReadSymbol>, (&'static str, String)>) -> Result<
    Seq<SymbolView>,
    (Seq<char>, Seq<char>),
> {
    match r {
        Ok(v) => Ok(v@.map_values(|s: ReadSymbol| s@)),
        Err((operation, message)) => Err((operation@, message@)),
    }
}

#[verifier::external_type_specification]
#[verifier::external_body]
pub struct ExBarcodeReader(BarcodeReader);

/// A ZXing-C++ reader configured for the QR family.
pub struct QrReader {
    reader: BarcodeReader,
}

/// Builds a `zxingcpp::BarcodeReader` restricted to QR Code, Micro QR Code and rMQR Code,
/// with try-harder, try-invert, try-rotate and try-downscale set. Nothing is claimed of
/// the value; every `QrReader` is built here.
#[verifier::external_body]
fn qr_family_reader() -> (r: QrReader) {
    QrReader {
        reader: BarcodeReader::new()
            .formats([BarcodeFormat::QRCode, BarcodeFormat::MicroQRCode, BarcodeFormat::RMQRCode])
            .try_harder(true).try_invert(true).try_rotate(true).try_downscale(true),
    }
}

/// Wraps the pixels in a `zxingcpp::ImageView` (RGBA) and runs `BarcodeReader::from` with
/// the QR-family reader; hands back each reported barcode's validity, whether it is a
/// Micro QR or rMQR Code, its bytes and its corner points. Trusted: the result is
/// `zxing_symbols` of the pixels and dimensions.
#[verifier::external_body]
fn read_qr_family(reader: &QrReader, pixels: &[u8], width: u32, height: u32) -> (r: Result<
    Vec<ReadSymbol>,
    (&'static str, String),
>)
    ensures
        symbols_view(r) == zxing_symbols(pixels@, width, height),
{
    let image = ImageView::from_slice(pixels, width, height, ImageFormat::RGBA).map_err(|e| ("decode_image", e.to_string()))?;
    let found = reader.reader.from(image).map_err(|e| ("decode_qr", e.to_string()))?;
    Ok(found.iter().map(|b| { let p = b.position(); ReadSymbol {
        valid: b.is_valid(),
        micro: b.format() == BarcodeFormat::MicroQRCode,
        rectangular: b.format() == BarcodeFormat::RMQRCode,
        bytes: b.bytes(),
        corners: [p.top_left, p.top_right, p.bottom_right, p.bottom_left].map(|c| (c.x, c.y)),
    } }).collect())
}

/// The QR-family format of a reported symbol; QR Code model variants count as QR Code.
pub open spec fn qr_format_of(s: SymbolView) -> QrFormat {
    if s.micro {
        QrFormat::MicroQrCode
    } else if s.rectangular {
        QrFormat::RectangularMicroQrCode
    } else {
        QrFormat::QrCode
    }
}

/// The corner points of a reported symbol.
pub open spec fn points_of(corners: Seq<(i32, i32)>) -> Seq<Point> {
    corners.map_values(|c: (i32, i32)| Point { x: c.0, y: c.1 })
}

/// The validated symbols, in reported order.
pub open spec fn valid_symbols(s: Seq<SymbolView>) -> Seq<SymbolView>
    decreases s.len(),
{
    if s.len() == 0 {
        Seq::empty()
    } else if s.last().valid {
        valid_symbols(s.drop_last()).push(s.last())
    } else {
        valid_symbols(s.drop_last())
    }
}

/// `d` is the detection of symbol `s`.
pub open spec fn detection_of(d: Detection, s: SymbolView) -> bool {
    &&& d.raw_bytes@ == s.bytes
    &&& d.format == qr_format_of(s)
    &&& d.corners@ == points_of(s.corners)
    &&& (d.text is Some <==> valid_utf8(s.bytes))
    &&& (d.text matches Some(t) ==> t@ == decode_utf8(s.bytes))
}

/// Turns the reported symbols into detections, keeping only validated ones, in order.
pub fn detections_from_symbols(symbols: &[ReadSymbol]) -> (r: Vec<Detection>)
    ensures
        r.len() == valid_symbols(symbols@.map_values(|s: ReadSymbol| s@)).len(),
        forall|i: int|
            0 <= i < r.len() ==> detection_of(
                #[trigger] r@[i],
                valid_symbols(symbols@.map_values(|s: ReadSymbol| s@))[i],
            ),
{
    let ghost all = symbols@.map_values(|s: ReadSymbol| s@);
    let mut out: Vec<Detection> = Vec::new();
    let mut i: usize = 0;
    while i < symbols.len()
        invariant
            i <= symbols.len(),
            all == symbols@.map_values(|s: ReadSymbol| s@),
            out.len() == valid_symbols(all.subrange(0, i as int)).len(),
            forall|j: int|
                0 <= j < out.len() ==> detection_of(
                    #[trigger] out@[j],
                    valid_symbols(all.subrange(0, i as int))[j],
                ),
        decreases symbols.len() - i,
    {
        let s = &symbols[i];
        proof {
            let next = all.subrange(0, i + 1);
            assert(next.drop_last() =~= all.subrange(0, i as int));
            assert(next.last() == s@);
        }
        if s.valid {
            let format = if s.micro {
                QrFormat::MicroQrCode
            } else if s.rectangular {
                QrFormat::RectangularMicroQrCode
            } else {
                QrFormat::QrCode
            };
            let c = s.corners;
            let corners = [
                Point { x: c[0].0, y: c[0].1 },
                Point { x: c[1].0, y: c[1].1 },
                Point { x: c[2].0, y: c[2].1 },
                Point { x: c[3].0, y: c[3].1 },
            ];
            assert(corners@ =~= points_of(s.corners@));
            let mut bytes: Vec<u8> = Vec::new();
            let mut k: usize = 0;
            while k < s.bytes.len()
                invariant
                    k <= s.bytes.len(),
                    bytes@ == s.bytes@.subrange(0, k as int),
                decreases s.bytes.len() - k,
            {
                bytes.push(s.bytes[k]);
                k = k + 1;
                assert(bytes@ =~= s.bytes@.subrange(0, k as int));
            }
            assert(bytes@ =~= s.bytes@);
            let d = Detection::new(bytes, format, corners);
            out.push(d);
        }
        i = i + 1;
    }
    assert(all.subrange(0, symbols.len() as int) =~= all);
    out
}

/// What decoding a frame gives: the validated QR-family detections in reported order, or
/// the reader's failure.
pub open spec fn decoded(frame_pixels: Seq<u8>, width: u32, height: u32, r: Result<Vec<Detection>, PortError>) -> bool {
    match zxing_symbols(frame_pixels, width, height) {
        Ok(symbols) => r matches Ok(d) && d.len() == valid_symbols(symbols).len() && forall|i: int|
            0 <= i < d.len() ==> detection_of(#[trigger] d@[i], valid_symbols(symbols)[i]),
        Err((operation, message)) => r matches Err(e) && e.spec_operation() == operation
            && e.spec_detail() == message,
    }
}

/// Decodes every valid QR Code, Micro QR Code and rMQR Code in an RGBA frame.
pub fn decode_frame(frame: &CapturedFrame) -> (r: Result<Vec<Detection>, PortError>)
    ensures
        decoded(frame.spec_pixels(), frame.spec_width(), frame.spec_height(), r),
{
    let reader = qr_family_reader();
    match read_qr_family(&reader, frame.pixels(), frame.width(), frame.height()) {
        Ok(symbols) => Ok(detections_from_symbols(symbols.as_slice())),
        Err((operation, message)) => Err(PortError::new(operation, message.as_str())),
    }
}

/// Production offline QR-family decoder.
#[derive(Clone, Copy, Debug, Default)]
pub struct ZxingDecoder;

impl DecoderPort for ZxingDecoder {
    fn decode(&self, frame: &CapturedFrame) -> (r: Result<Vec<Detection>, PortError>)
        ensures
            decoded(frame.spec_pixels(), frame.spec_width(), frame.spec_height(), r),
    {
        decode_frame(frame)
    }
}

} // verus!
