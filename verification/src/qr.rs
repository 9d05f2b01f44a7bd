//! QR code images: the size that is asked of the renderer, the errors that
//! encoding reports and their messages, and the pipeline from text to a
//! grayscale image.
use vstd::prelude::*;
use image::{ImageBuffer, Luma};
use qrcode::render::Renderer;
use qrcode::types::{Color, QrError};
use qrcode::QrCode;

verus! {

/// The ways in which encoding text as a QR code can fail.
#[derive(PartialEq, Eq, Structural, Clone, Copy, Debug)]
pub enum QrFailure {
    DataTooLong,
    InvalidVersion,
    UnsupportedCharacterSet,
    InvalidEciDesignator,
    InvalidCharacter,
}

/// How the encoder describes each failure.
pub open spec fn failure_text(f: QrFailure) -> Seq<char> {
    match f {
        QrFailure::DataTooLong => "data too long"@,
        QrFailure::InvalidVersion => "invalid version"@,
        QrFailure::UnsupportedCharacterSet => "unsupported character set"@,
        QrFailure::InvalidEciDesignator => "invalid ECI designator"@,
        QrFailure::InvalidCharacter => "invalid character"@,
    }
}

/// What the encoder makes of `data`: the side of the code in modules and,
/// row by row, which modules are dark; or how it fails.
pub uninterp spec fn qr_encoding(data: Seq<char>) -> Result<(int, Seq<bool>), QrFailure>;

/// What the renderer draws for a code of the given side and dark modules,
/// with the given quiet zone, asked to be at least `min_dim` pixels wide:
/// the side of the image in pixels and its bytes, row by row.
pub uninterp spec fn qr_rendering(side: int, dark: Seq<bool>, quiet_zone: u32, min_dim: u32) -> (u32, Seq<u8>);

/// How the standard library's debug formatting quotes a string.
pub uninterp spec fn debug_quoted(s: Seq<char>) -> Seq<char>;

/// The error that QR code generation reports.
#[derive(Debug)]
pub enum QrCodeError {
    InvalidData(String),
}

impl QrCodeError {
    /// The text carried by the error.
    pub open spec fn text(self) -> Seq<char> {
        match self {
            QrCodeError::InvalidData(m) => m@,
        }
    }

    /// The error for an encoding failure: `InvalidData("QR Code error: "`
    /// followed by the encoder's description of the failure).
    pub fn from(failure: QrFailure) -> (e: QrCodeError)
        ensures
            e.text() == "QR Code error: "@ + failure_text(failure),
    {
        let mut m = String::from_str("QR Code error: ");
        m.append(failure_message(failure));
        QrCodeError::InvalidData(m)
    }

    /// The error as displayed: `QR code error: ` followed by its debug form,
    /// `InvalidData(<quoted text>)`.
    pub fn to_string(&self) -> (s: String)
        ensures
            s@ == "QR code error: InvalidData("@ + debug_quoted(self.text()) + ")"@,
    {
        match self {
            QrCodeError::InvalidData(m) => {
                let mut s = String::from_str("QR code error: InvalidData(");
                let quoted = debug_string(m.as_str());
                s.append(quoted.as_str());
                s.append(")");
                s
            },
        }
    }
}

/// A grayscale image, one byte per pixel, row by row.
pub struct QrImage {
    pub width: u32,
    pub height: u32,
    pub pixels: Vec<u8>,
}

impl QrImage {
    /// The pixel buffer holds exactly one byte per pixel.
    pub open spec fn well_formed(&self) -> bool {
        self.pixels@.len() == self.width * self.height
    }
}

/// A QR code as the encoder lays it out: `side` modules square, and for
/// each module, row by row, whether it is dark.
pub struct QrGrid {
    pub side: usize,
    pub dark: Vec<bool>,
}

impl QrGrid {
    /// One entry per module, and the side of a standard code (versions 1 to
    /// 40, 21 to 177 modules).
    pub open spec fn well_formed(&self) -> bool {
        &&& self.dark@.len() == self.side * self.side
        &&& 21 <= self.side <= 177
    }
}

/// The side and modules of a code, as a plain value.
pub open spec fn grid_outcome(g: QrGrid) -> Result<(int, Seq<bool>), QrFailure> {
    Ok((g.side as int, g.dark@))
}

/// What an encoding attempt came to, as a plain value.
pub open spec fn outcome(r: Result<QrGrid, QrFailure>) -> Result<(int, Seq<bool>), QrFailure> {
    match r {
        Ok(g) => grid_outcome(g),
        Err(f) => Err(f),
    }
}

/// The quiet zone, in modules, that the renderer puts around a standard
/// code.
pub open spec fn standard_quiet_zone() -> u32 {
    4
}

/// The encoder's description of a failure.
pub fn failure_message(failure: QrFailure) -> (m: &'static str)
    ensures
        m@ == failure_text(failure),
{
    match failure {
        QrFailure::DataTooLong => "data too long",
        QrFailure::InvalidVersion => "invalid version",
        QrFailure::UnsupportedCharacterSet => "unsupported character set",
        QrFailure::InvalidEciDesignator => "invalid ECI designator",
        QrFailure::InvalidCharacter => "invalid character",
    }
}

/// The requested size, 200 when none is given, reinterpreted as unsigned:
/// a negative size wraps around.
pub open spec fn min_dimension(size: Option<i32>) -> u32 {
    let s: i32 = match size {
        Some(s) => s,
        None => 200,
    };
    if s >= 0 {
        s as u32
    } else {
        (s + 0x1_0000_0000) as u32
    }
}

/// The smallest width and height that the image is asked to have.
pub fn qr_min_dimension(size: Option<i32>) -> (d: u32)
    ensures
        d == min_dimension(size),
{
    let s: i32 = match size {
        Some(s) => s,
        None => 200,
    };
    if s >= 0 {
        s as u32
    } else {
        ((s as i64) + 0x1_0000_0000i64) as u32
    }
}

/// The side of each module in pixels: the smallest whole number of pixels
/// that makes the code with both quiet zones at least `min_dim` wide, and at
/// least 1.
pub open spec fn module_pixels(side: int, quiet_zone: u32, min_dim: u32) -> int {
    let w = side + 2 * quiet_zone;
    if min_dim == 0 {
        1
    } else {
        (min_dim + w - 1) / w
    }
}

/// The side of the rendered image in pixels.
pub open spec fn rendered_side(side: int, quiet_zone: u32, min_dim: u32) -> int {
    (side + 2 * quiet_zone) * module_pixels(side, quiet_zone, min_dim)
}

/// The byte of pixel (`x`, `y`): 0 where it lies on a dark module of the
/// code, 255 on a light module or in the quiet zone.
pub open spec fn rendered_pixel(side: int, dark: Seq<bool>, quiet_zone: u32, min_dim: u32, x: int, y: int) -> u8 {
    let u = module_pixels(side, quiet_zone, min_dim);
    let mx = x / u - quiet_zone;
    let my = y / u - quiet_zone;
    if 0 <= mx < side && 0 <= my < side && dark[my * side + mx] {
        0
    } else {
        255
    }
}

/// The bytes of the rendered image, row by row.
pub open spec fn rendered_pixels(side: int, dark: Seq<bool>, quiet_zone: u32, min_dim: u32) -> Seq<u8> {
    let n = rendered_side(side, quiet_zone, min_dim);
    Seq::new((n * n) as nat, |i: int| rendered_pixel(side, dark, quiet_zone, min_dim, i % n, i / n))
}

/// The widest side of a standard code with its quiet zone, in modules.
pub open spec fn max_modules_with_border() -> int {
    185
}

/// Whether a standard code can be rendered at least `d` pixels wide without
/// the renderer's arithmetic leaving its integer types.
pub open spec fn renderable(d: u32) -> bool {
    &&& d + max_modules_with_border() - 1 <= u32::MAX
    &&& widest_side(d) * widest_side(d) <= usize::MAX
}

/// The widest image side that asking for `d` pixels can give.
pub open spec fn widest_side(d: u32) -> int {
    (if d == 0 { 1 } else { d as int }) + max_modules_with_border() - 1
}

/// Whether a code can be rendered at least `d` pixels wide.
pub fn renderable_dimension(d: u32) -> (ok: bool)
    ensures
        ok == renderable(d),
{
    if d > u32::MAX - 184 {
        return false;
    }
    let side: u128 = if d == 0 { 185 } else { (d as u128) + 184 };
    assert(side * side <= 0x1_0000_0000u128 * 0x1_0000_0000u128) by (nonlinear_arith)
        requires side <= 0x1_0000_0000u128;
    side * side <= usize::MAX as u128
}

/// Encodes `data` as a QR code with the encoder's default error correction
/// level (`qrcode::QrCode::new`) and hands back its modules
/// (`QrCode::width`, `QrCode::to_colors`). The outcome is named
/// `qr_encoding`. The encoder picks the smallest of the standard versions 1
/// to 40 that holds the data, so a code is 21 to 177 modules wide and has one
/// colour per module.
#[verifier::external_body]
fn encode_qr(data: &str) -> (r: Result<QrGrid, QrFailure>)
    ensures
        qr_encoding(data@) == outcome(r),
        r matches Ok(g) ==> g.well_formed(),
{
    match QrCode::new(data) {
        Ok(code) => Ok(QrGrid {
            side: code.width(),
            dark: code.to_colors().into_iter().map(|c| c == Color::Dark).collect(),
        }),
        Err(QrError::DataTooLong) => Err(QrFailure::DataTooLong),
        Err(QrError::InvalidVersion) => Err(QrFailure::InvalidVersion),
        Err(QrError::UnsupportedCharacterSet) => Err(QrFailure::UnsupportedCharacterSet),
        Err(QrError::InvalidEciDesignator) => Err(QrFailure::InvalidEciDesignator),
        Err(QrError::InvalidCharacter) => Err(QrFailure::InvalidCharacter),
    }
}

/// Renders the modules as a grayscale image of at least `min_dim` by
/// `min_dim` pixels (`Renderer::<Luma<u8>>::new(..)`, `min_dimensions`,
/// `build`). The outcome is named `qr_rendering` and spelled out by
/// `rendered_side` and `rendered_pixels`: the renderer surrounds the modules
/// with the quiet zone and draws every module as a block of
/// `max(ceil(min_dim / w), 1)` pixels a side, `w` being the side with both
/// quiet zones; so the image is square, at least `min_dim` wide, and less
/// than `max(min_dim, 1) + w` wide. Dark modules are 0 and all else 255.
#[verifier::external_body]
fn render_qr(grid: &QrGrid, quiet_zone: u32, min_dim: u32) -> (img: QrImage)
    requires
        grid.well_formed(),
        quiet_zone <= standard_quiet_zone(),
        renderable(min_dim),
    ensures
        (img.width, img.pixels@) == qr_rendering(grid.side as int, grid.dark@, quiet_zone, min_dim),
        img.width == rendered_side(grid.side as int, quiet_zone, min_dim),
        img.pixels@ == rendered_pixels(grid.side as int, grid.dark@, quiet_zone, min_dim),
        img.well_formed(),
        img.width == img.height,
        min_dim <= img.width,
        img.width < (if min_dim == 0 { 1 } else { min_dim as int }) + grid.side + 2 * quiet_zone,
        forall|i: int| 0 <= i < img.pixels@.len() ==> #[trigger] img.pixels@[i] == 0 || img.pixels@[i] == 255,
{
    let colors: Vec<Color> = grid.dark.iter().map(|d| if *d { Color::Dark } else { Color::Light }).collect();
    let image: ImageBuffer<Luma<u8>, Vec<u8>> =
        Renderer::<Luma<u8>>::new(&colors, grid.side, quiet_zone).min_dimensions(min_dim, min_dim).build();
    let (width, height) = image.dimensions();
    QrImage { width, height, pixels: image.into_raw() }
}

/// Quotes `s` as the standard library's debug formatting does
/// (`format!("{:?}", s)`); the result is named `debug_quoted`.
#[verifier::external_body]
fn debug_string(s: &str) -> (q: String)
    ensures
        q@ == debug_quoted(s@),
{
    format!("{:?}", s)
}

/// The QR code of `data`, as the encoder lays it out; fails, with the
/// encoder's failure, where encoding does.
pub fn qr_encode(data: &str) -> (r: Result<QrGrid, QrCodeError>)
    ensures
        r is Err <==> qr_encoding(data@) is Err,
        r matches Err(e) ==> e.text() == "QR Code error: "@ + failure_text(qr_encoding(data@)->Err_0),
        r matches Ok(g) ==> g.well_formed() && qr_encoding(data@) == grid_outcome(g),
{
    match encode_qr(data) {
        Ok(grid) => Ok(grid),
        Err(failure) => Err(QrCodeError::from(failure)),
    }
}

/// The image of the code, with the standard quiet zone, at least as wide as
/// the requested size (200 by default).
pub fn qr_render(grid: &QrGrid, size: Option<i32>) -> (img: QrImage)
    requires
        grid.well_formed(),
        renderable(min_dimension(size)),
    ensures
        (img.width, img.pixels@) == qr_rendering(grid.side as int, grid.dark@, standard_quiet_zone(), min_dimension(size)),
        img.width == rendered_side(grid.side as int, standard_quiet_zone(), min_dimension(size)),
        img.pixels@ == rendered_pixels(grid.side as int, grid.dark@, standard_quiet_zone(), min_dimension(size)),
        img.well_formed(),
        img.width == img.height,
        min_dimension(size) <= img.width < (if min_dimension(size) == 0 { 1 } else { min_dimension(size) as int }) + grid.side + 8,
        forall|i: int| 0 <= i < img.pixels@.len() ==> #[trigger] img.pixels@[i] == 0 || img.pixels@[i] == 255,
{
    let dim = qr_min_dimension(size);
    render_qr(grid, 4, dim)
}

} // verus!
