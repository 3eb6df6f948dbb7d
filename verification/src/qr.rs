//! From a payload to a picture: the QR symbol that `qrcode` computes, its
//! raster of grey pixels, and the PNG file that `image` writes.

use vstd::arithmetic::div_mod::lemma_fundamental_div_mod_converse;
use vstd::prelude::*;

verus! {

/// Light modules that surround the symbol on each side.
pub const QUIET_ZONE: usize = 4;

/// Pixels along each side of one module.
pub const MODULE_SIZE: usize = 8;

/// Modules along a side of the largest symbol.
pub const MAX_WIDTH: usize = 177;

/// Grey level of a dark module.
pub const DARK: u8 = 0;

/// Grey level of a light module and of the quiet zone.
pub const LIGHT: u8 = 255;

/// A square QR symbol: `width` modules along each side, row by row from the
/// top left, `true` for a dark module.
#[derive(Debug, Clone, PartialEq, Eq)]
pub struct Symbol {
    pub width: usize,
    pub modules: Vec<bool>,
}

/// The mathematical content of a [`Symbol`].
pub struct SymbolView {
    pub width: nat,
    pub modules: Seq<bool>,
}

impl SymbolView {
    /// The symbol is square and no larger than the largest QR symbol.
    pub open spec fn wf(self) -> bool {
        &&& self.width <= MAX_WIDTH
        &&& self.modules.len() == self.width * self.width
    }

    /// Whether the module in column `col` of row `row` is dark. Places
    /// outside the symbol are light.
    pub open spec fn dark(self, col: int, row: int) -> bool {
        &&& 0 <= col < self.width
        &&& 0 <= row < self.width
        &&& self.modules[row * self.width + col]
    }
}

impl View for Symbol {
    type V = SymbolView;

    open spec fn view(&self) -> SymbolView {
        SymbolView { width: self.width as nat, modules: self.modules@ }
    }
}

/// A picture of one grey channel: `height` rows of `width` pixels, row by row
/// from the top left.
#[derive(Debug, Clone, PartialEq, Eq)]
pub struct Raster {
    pub width: u32,
    pub height: u32,
    pub pixels: Vec<u8>,
}

/// The mathematical content of a [`Raster`].
pub struct RasterView {
    pub width: nat,
    pub height: nat,
    pub pixels: Seq<u8>,
}

impl View for Raster {
    type V = RasterView;

    open spec fn view(&self) -> RasterView {
        RasterView { width: self.width as nat, height: self.height as nat, pixels: self.pixels@ }
    }
}

/// Pixels along a side of the picture of a symbol of `width` modules.
pub open spec fn side(width: nat) -> nat {
    ((width + 2 * QUIET_ZONE) * MODULE_SIZE) as nat
}

/// Grey level of the pixel in column `x` of row `y`.
pub open spec fn shade(symbol: SymbolView, x: int, y: int) -> u8 {
    if symbol.dark(x / (MODULE_SIZE as int) - QUIET_ZONE, y / (MODULE_SIZE as int) - QUIET_ZONE) {
        DARK
    } else {
        LIGHT
    }
}

/// The picture of a symbol: every module a square block of
/// [`MODULE_SIZE`] pixels, dark on light, inside a light quiet zone of
/// [`QUIET_ZONE`] modules.
pub open spec fn raster_of(symbol: SymbolView) -> RasterView {
    let n = side(symbol.width);
    RasterView {
        width: n,
        height: n,
        pixels: Seq::new(n * n, |i: int| shade(symbol, i % (n as int), i / (n as int))),
    }
}

impl Symbol {
    /// The symbol with these modules, if they fill a square of this width
    /// and the width is that of no more than the largest QR symbol.
    pub fn new(width: usize, modules: Vec<bool>) -> (r: Option<Symbol>)
        ensures
            match r {
                Some(symbol) => symbol.width == width && symbol.modules == modules && symbol@.wf(),
                None => !(SymbolView { width: width as nat, modules: modules@ }).wf(),
            },
    {
        if width > MAX_WIDTH {
            return None;
        }
        assert(width * width <= MAX_WIDTH * MAX_WIDTH) by (nonlinear_arith)
            requires
                width <= MAX_WIDTH,
        ;
        if modules.len() != width * width {
            return None;
        }
        Some(Symbol { width, modules })
    }

    /// Grey level of the pixel in column `x` of row `y` of the picture.
    pub fn shade(&self, x: usize, y: usize) -> (r: u8)
        requires
            self@.wf(),
        ensures
            r == shade(self@, x as int, y as int),
    {
        let col = x / MODULE_SIZE;
        let row = y / MODULE_SIZE;
        if QUIET_ZONE <= col && col - QUIET_ZONE < self.width && QUIET_ZONE <= row && row
            - QUIET_ZONE < self.width {
            let c = col - QUIET_ZONE;
            let r = row - QUIET_ZONE;
            assert(0 <= r * self.width && r * self.width + c < self.width * self.width
                && self.width * self.width <= MAX_WIDTH * MAX_WIDTH) by (nonlinear_arith)
                requires
                    0 <= c < self.width,
                    0 <= r < self.width,
                    self.width <= MAX_WIDTH,
            ;
            if self.modules[r * self.width + c] {
                DARK
            } else {
                LIGHT
            }
        } else {
            LIGHT
        }
    }
}

/// Draws the symbol as `qrcode` draws it by default on a grey image.
pub fn rasterize(symbol: &Symbol) -> (r: Raster)
    requires
        symbol@.wf(),
    ensures
        r@ == raster_of(symbol@),
{
    let n: usize = (symbol.width + 2 * QUIET_ZONE) * MODULE_SIZE;
    assert(n == side(symbol@.width));
    assert(n * n <= 1480 * 1480) by (nonlinear_arith)
        requires
            n <= 1480,
    ;
    let mut pixels: Vec<u8> = Vec::with_capacity(n * n);
    let mut y: usize = 0;
    while y < n
        invariant
            symbol@.wf(),
            n == side(symbol@.width),
            n <= 1480,
            y <= n,
            pixels@.len() == y * n,
            forall|i: int|
                0 <= i < pixels@.len() ==> pixels@[i] == shade(
                    symbol@,
                    i % (n as int),
                    i / (n as int),
                ),
        decreases n - y,
    {
        let mut x: usize = 0;
        while x < n
            invariant
                symbol@.wf(),
                n == side(symbol@.width),
                n <= 1480,
                y < n,
                x <= n,
                pixels@.len() == y * n + x,
                forall|i: int|
                    0 <= i < pixels@.len() ==> pixels@[i] == shade(
                        symbol@,
                        i % (n as int),
                        i / (n as int),
                    ),
            decreases n - x,
        {
            let value = symbol.shade(x, y);
            proof {
                lemma_fundamental_div_mod_converse(y * n + x, n as int, y as int, x as int);
            }
            pixels.push(value);
            x += 1;
        }
        assert(y * n + n == (y + 1) * n) by (nonlinear_arith);
        y += 1;
    }
    let r = Raster { width: n as u32, height: n as u32, pixels };
    assert(r@.pixels =~= raster_of(symbol@).pixels);
    r
}

#[verifier::external_type_specification]
#[verifier::external_body]
pub struct ExQrError(qrcode::types::QrError);

#[verifier::external_type_specification]
#[verifier::external_body]
pub struct ExImageError(image::ImageError);

/// The symbol that `qrcode` computes for a payload, as its width and its
/// modules, or `None` where `qrcode` cannot encode the payload.
pub uninterp spec fn qr_symbol(payload: Seq<char>) -> Option<(nat, Seq<bool>)>;

/// The PNG file that `image` writes for a grey picture of this width, height
/// and pixels, or `None` where it fails to write one.
pub uninterp spec fn png_encoding(width: nat, height: nat, pixels: Seq<u8>) -> Option<Seq<u8>>;

/// Encodes the payload with `qrcode::QrCode::new`, which picks the smallest
/// symbol that holds it at the medium error correction level, and copies out
/// the symbol's width and modules.
///
/// Not proved: that the symbol returned is the one that `qrcode` computed,
/// and that it fails exactly where [`qr_symbol`] is `None`. Nothing is claimed
/// about the size of the symbol or about which payloads fit.
#[allow(deprecated)]
#[verifier::external_body]
pub(crate) fn encode_symbol(payload: &str) -> (r: Result<Symbol, qrcode::types::QrError>)
    ensures
        match r {
            Ok(symbol) => qr_symbol(payload@) == Some((symbol@.width, symbol@.modules)),
            Err(_) => qr_symbol(payload@) is None,
        },
{
    match qrcode::QrCode::new(payload) {
        Ok(code) => Ok(Symbol { width: code.width(), modules: code.into_vec() }),
        Err(e) => Err(e),
    }
}

/// Writes the picture as a PNG file of one 8-bit grey channel with
/// `image::write_buffer_with_format`, into memory.
///
/// Not proved: that the bytes returned are the file that `image` wrote, and
/// that it fails exactly where [`png_encoding`] is `None`. Nothing is claimed
/// about the bytes themselves.
#[verifier::external_body]
pub(crate) fn encode_png(raster: &Raster) -> (r: Result<Vec<u8>, image::ImageError>)
    requires
        raster@.pixels.len() == raster@.width * raster@.height,
    ensures
        match r {
            Ok(bytes) => png_encoding(raster@.width, raster@.height, raster@.pixels) == Some(
                bytes@,
            ),
            Err(_) => png_encoding(raster@.width, raster@.height, raster@.pixels) is None,
        },
{
    let mut bytes = Vec::new();
    let written = image::write_buffer_with_format(
        &mut std::io::Cursor::new(&mut bytes),
        &raster.pixels,
        raster.width,
        raster.height,
        image::ColorType::L8,
        image::ImageOutputFormat::Png,
    );
    written.map(|()| bytes)
}

} // verus!
