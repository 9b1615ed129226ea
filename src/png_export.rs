//! Raster export settings and the data handed to an external renderer.
use vstd::prelude::*;

verus! {

/// Raster export options.
#[derive(Debug)]
pub struct PngExportOptions {
    pub width: u32,
    pub height: u32,
    /// Background colour as hex; none for a transparent image.
    pub background: Option<String>,
    pub dpi: u32,
    pub antialias: bool,
}

/// Pixels across `tenths_mm` tenths of a millimetre at `dpi`, rounded down
/// and capped at the largest `u32`.
pub open spec fn pixels_for(tenths_mm: int, dpi: int) -> int {
    let p = tenths_mm * dpi / 254;
    if p > u32::MAX {
        u32::MAX as int
    } else {
        p
    }
}

fn pixels(tenths_mm: u64, dpi: u32) -> (r: u32)
    requires
        tenths_mm <= 10000,
    ensures
        r == pixels_for(tenths_mm as int, dpi as int),
{
    assert(tenths_mm * dpi <= 10000 * 0xffff_ffffu64) by (nonlinear_arith)
        requires
            tenths_mm <= 10000,
            dpi <= 0xffff_ffffu32,
    ;
    let p = tenths_mm * (dpi as u64) / 254;
    if p > 0xffff_ffffu64 {
        0xffff_ffffu32
    } else {
        p as u32
    }
}

impl Default for PngExportOptions {
    /// 1920 by 1080 at 96 dpi on white, antialiased.
    fn default() -> (r: PngExportOptions)
        ensures
            r.width == 1920,
            r.height == 1080,
            r.background matches Some(b) && b@ == "#ffffff"@,
            r.dpi == 96,
            r.antialias,
    {
        PngExportOptions {
            width: 1920,
            height: 1080,
            background: Some("#ffffff".to_owned()),
            dpi: 96,
            antialias: true,
        }
    }
}

impl PngExportOptions {
    /// An A4 landscape page (297 by 210 mm) at `dpi`.
    pub fn a4_landscape(dpi: u32) -> (r: PngExportOptions)
        ensures
            r.width == pixels_for(2970, dpi as int),
            r.height == pixels_for(2100, dpi as int),
            r.dpi == dpi,
            r.background matches Some(b) && b@ == "#ffffff"@,
            r.antialias,
    {
        let base = PngExportOptions::default();
        PngExportOptions { width: pixels(2970, dpi), height: pixels(2100, dpi), dpi, ..base }
    }

    /// An A4 portrait page (210 by 297 mm) at `dpi`.
    pub fn a4_portrait(dpi: u32) -> (r: PngExportOptions)
        ensures
            r.width == pixels_for(2100, dpi as int),
            r.height == pixels_for(2970, dpi as int),
            r.dpi == dpi,
            r.background matches Some(b) && b@ == "#ffffff"@,
            r.antialias,
    {
        let base = PngExportOptions::default();
        PngExportOptions { width: pixels(2100, dpi), height: pixels(2970, dpi), dpi, ..base }
    }

    /// The default options at another size.
    pub fn resolution(width: u32, height: u32) -> (r: PngExportOptions)
        ensures
            r.width == width,
            r.height == height,
            r.dpi == 96,
            r.background matches Some(b) && b@ == "#ffffff"@,
            r.antialias,
    {
        let base = PngExportOptions::default();
        PngExportOptions { width, height, ..base }
    }

    /// The same options with a transparent background.
    pub fn transparent(self) -> (r: PngExportOptions)
        ensures
            r.background is None,
            r.width == self.width,
            r.height == self.height,
            r.dpi == self.dpi,
            r.antialias == self.antialias,
    {
        PngExportOptions { background: None, ..self }
    }
}

/// Generator of raster exports.
#[derive(Debug)]
pub struct PngGenerator {
    pub options: PngExportOptions,
}

impl PngGenerator {
    /// A generator with the default options.
    pub fn new() -> (r: PngGenerator)
        ensures
            r.options.width == 1920,
            r.options.height == 1080,
            r.options.dpi == 96,
            r.options.background matches Some(b) && b@ == "#ffffff"@,
            r.options.antialias,
    {
        PngGenerator { options: PngExportOptions::default() }
    }

    pub fn with_options(options: PngExportOptions) -> (r: PngGenerator)
        ensures
            r.options == options,
    {
        PngGenerator { options }
    }
}

/// An image to render: the vector source and the raster settings.
#[derive(Debug)]
pub struct PngData {
    pub svg_source: String,
    pub width: u32,
    pub height: u32,
    pub dpi: u32,
    pub background: Option<String>,
}

/// The bytes of a one-pixel placeholder image.
pub open spec fn placeholder_bytes() -> Seq<u8> {
    seq![
        0x89u8, 0x50, 0x4E, 0x47, 0x0D, 0x0A, 0x1A, 0x0A,
        0x00, 0x00, 0x00, 0x0D, 0x49, 0x48, 0x44, 0x52,
        0x00, 0x00, 0x00, 0x01, 0x00, 0x00, 0x00, 0x01, 0x08, 0x02, 0x00, 0x00, 0x00,
        0x00, 0x00, 0x00, 0x00,
        0x00, 0x00, 0x00, 0x0C, 0x49, 0x44, 0x41, 0x54,
        0x08, 0xD7, 0x63, 0xF8, 0xFF, 0xFF, 0xFF, 0x00, 0x05, 0xFE, 0x02, 0xFE,
        0x00, 0x00, 0x00, 0x00,
        0x00, 0x00, 0x00, 0x00, 0x49, 0x45, 0x4E, 0x44, 0xAE, 0x42, 0x60, 0x82,
    ]
}

impl PngData {
    pub fn svg(&self) -> (r: &str)
        ensures
            r@ == self.svg_source@,
    {
        self.svg_source.as_str()
    }

    pub fn dimensions(&self) -> (r: (u32, u32))
        ensures
            r == (self.width, self.height),
    {
        (self.width, self.height)
    }

    pub fn is_transparent(&self) -> (r: bool)
        ensures
            r == self.background is None,
    {
        self.background.is_none()
    }

    /// Rough size of the encoded image: three bytes a pixel, halved.
    pub fn estimated_size(&self) -> (r: usize)
        requires
            self.width as int * self.height as int * 3 <= usize::MAX,
        ensures
            r == self.width as int * self.height as int * 3 / 2,
    {
        let p = self.width as usize * self.height as usize;
        p * 3 / 2
    }

    /// A minimal one-pixel image with the PNG signature and chunk layout.
    pub fn placeholder_png(&self) -> (r: Vec<u8>)
        ensures
            r@ == placeholder_bytes(),
    {
        let bytes: [u8; 69] = [
            0x89, 0x50, 0x4E, 0x47, 0x0D, 0x0A, 0x1A, 0x0A,
            0x00, 0x00, 0x00, 0x0D, 0x49, 0x48, 0x44, 0x52,
            0x00, 0x00, 0x00, 0x01, 0x00, 0x00, 0x00, 0x01, 0x08, 0x02, 0x00, 0x00, 0x00,
            0x00, 0x00, 0x00, 0x00,
            0x00, 0x00, 0x00, 0x0C, 0x49, 0x44, 0x41, 0x54,
            0x08, 0xD7, 0x63, 0xF8, 0xFF, 0xFF, 0xFF, 0x00, 0x05, 0xFE, 0x02, 0xFE,
            0x00, 0x00, 0x00, 0x00,
            0x00, 0x00, 0x00, 0x00, 0x49, 0x45, 0x4E, 0x44, 0xAE, 0x42, 0x60, 0x82,
        ];
        assert(bytes@ =~= placeholder_bytes());
        let mut png: Vec<u8> = Vec::new();
        let mut i: usize = 0;
        while i < 69
            invariant
                i <= 69,
                bytes@ == placeholder_bytes(),
                png@ == bytes@.subrange(0, i as int),
            decreases 69 - i,
        {
            png.push(bytes[i]);
            assert(png@ =~= bytes@.subrange(0, i + 1));
            i = i + 1;
        }
        assert(bytes@.subrange(0, 69) =~= bytes@);
        png
    }
}

} // verus!
