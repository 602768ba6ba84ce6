//! The vector tree builder and the rasterizer.
//!
//! Building parses rendered markup into an in-memory vector scene with the
//! supplied font data registered; rasterizing renders that scene into a
//! fixed-dimension premultiplied RGBA pixel buffer. Both are done by the
//! `usvg`/`resvg`/`tiny-skia` crates behind trusted wrappers; their results
//! are deterministic functions of the markup text, the font bytes and the
//! target size, which [`svg_scene_ok`] and [`pixels_of`] stand for.

use vstd::prelude::*;
use vstd::string::*;

verus! {

/// Whether markup parses into a vector scene with the given font data
/// registered. Deterministic in the markup and font bytes alone. An image
/// reference that resolves to nothing never makes parsing fail: the image
/// node is skipped and the rest of the composition is kept.
pub uninterp spec fn svg_scene_ok(markup: Seq<char>, font: Seq<u8>) -> bool;

/// The premultiplied RGBA bytes that rasterizing the scene parsed from the
/// given markup (with the given fonts) onto a width-by-height surface
/// produces. Deterministic in those arguments alone; content outside the
/// target bounds is clipped, not scaled.
pub uninterp spec fn pixels_of(markup: Seq<char>, font: Seq<u8>, width: u32, height: u32) -> Seq<
    u8,
>;

#[verifier::external_type_specification]
#[verifier::external_body]
pub struct ExUsvgTree(usvg::Tree);

/// An in-memory vector scene for one request, together with the markup text
/// and font bytes it was built from. Dropped after rasterization; never
/// cached or shared across requests.
pub struct Scene {
    tree: usvg::Tree,
    markup: String,
    font: Vec<u8>,
}

/// The rendered markup was not parseable as SVG. A request-level error, not
/// fatal to the process.
#[derive(Debug)]
pub struct ParseError {
    pub reason: String,
}

/// The pixel surface could not be set up for the requested dimensions.
#[derive(Debug)]
pub struct RasterError {
    pub reason: String,
}

/// A fixed-size premultiplied RGBA raster: exactly four bytes per pixel.
/// Exclusively owned by the render call that made it.
pub struct PixelBuffer {
    data: Vec<u8>,
    width: u32,
    height: u32,
}

/// Dimensions this library promises the rasterizer accepts: positive and
/// comfortably inside the pixel surface's own limits.
pub open spec fn raster_dims_ok(width: u32, height: u32) -> bool {
    1 <= width <= 16384 && 1 <= height <= 16384
}

/// Relies on usvg::Tree::from_str with a font database loaded from the given
/// bytes and image references restricted to inline data URLs (the resolver
/// for other reference strings is disabled, so nothing is read from disk or
/// elsewhere): whether markup parses depends on the markup and fonts alone.
/// A reference that resolves to nothing is skipped with the rest of the
/// document kept, and a nested SVG carried in a data URL is parsed without
/// any further external resolution.
#[verifier::external_body]
fn parse_svg_raw(markup: &str, font: &Vec<u8>) -> (r: Result<Scene, String>)
    ensures
        r.is_ok() == svg_scene_ok(markup@, font@),
        r matches Ok(s) ==> s.markup_view() == markup@ && s.font_view() == font@,
{
    let mut db = usvg::fontdb::Database::new();
    db.load_font_data(font.clone());
    let resolver = usvg::ImageHrefResolver {
        resolve_data: usvg::ImageHrefResolver::default_data_resolver(),
        resolve_string: Box::new(|_href: &str, _opts: &usvg::Options| None),
    };
    let options = usvg::Options {
        fontdb: std::sync::Arc::new(db),
        image_href_resolver: resolver,
        ..usvg::Options::default()
    };
    match usvg::Tree::from_str(markup, &options) {
        Ok(tree) => Ok(Scene { tree, markup: markup.to_string(), font: font.clone() }),
        Err(e) => Err(e.to_string()),
    }
}

/// Relies on tiny_skia::Pixmap::new (which fails only for zero or oversized
/// dimensions, and yields a surface of exactly 4 * width * height bytes) and
/// resvg::render (which cannot fail and clips content outside the target):
/// the produced bytes depend on the scene's markup, its fonts and the target
/// size alone.
#[verifier::external_body]
fn rasterize_raw(scene: &Scene, width: u32, height: u32) -> (r: Option<PixelBuffer>)
    ensures
        raster_dims_ok(width, height) ==> r.is_some(),
        r matches Some(b) ==> {
            &&& b.width_view() == width
            &&& b.height_view() == height
            &&& b.data_view() == pixels_of(scene.markup_view(), scene.font_view(), width, height)
            &&& b.data_view().len() == 4 * width * height
        },
{
    let mut pixmap = resvg::tiny_skia::Pixmap::new(width, height)?;
    resvg::render(&scene.tree, resvg::tiny_skia::Transform::identity(), &mut pixmap.as_mut());
    Some(PixelBuffer { data: pixmap.take(), width, height })
}

impl Scene {
    /// The markup this scene was parsed from.
    pub closed spec fn markup_view(&self) -> Seq<char> {
        self.markup@
    }

    /// The font bytes registered for this scene's text layout.
    pub closed spec fn font_view(&self) -> Seq<u8> {
        self.font@
    }

    /// Parses rendered markup into a vector scene, registering the supplied
    /// font bytes for text layout first. Fails exactly when the markup is
    /// not parseable; an unresolvable image reference is not a failure.
    pub fn build(markup: &str, font: &Vec<u8>) -> (r: Result<Scene, ParseError>)
        ensures
            r.is_ok() == svg_scene_ok(markup@, font@),
            r matches Ok(s) ==> s.markup_view() == markup@ && s.font_view() == font@,
    {
        match parse_svg_raw(markup, font) {
            Ok(s) => Ok(s),
            Err(reason) => Err(ParseError { reason }),
        }
    }

    /// Renders this scene into a pixel buffer of exactly the requested
    /// dimensions, single-pass, with the identity transform: content outside
    /// the target bounds is clipped. Succeeds for every dimension pair in
    /// [`raster_dims_ok`].
    pub fn rasterize(&self, width: u32, height: u32) -> (r: Result<PixelBuffer, RasterError>)
        ensures
            raster_dims_ok(width, height) ==> r.is_ok(),
            r matches Ok(b) ==> {
                &&& b.width_view() == width
                &&& b.height_view() == height
                &&& b.data_view() == pixels_of(self.markup_view(), self.font_view(), width, height)
                &&& b.wf()
            },
    {
        match rasterize_raw(self, width, height) {
            Some(b) => Ok(b),
            None => Err(RasterError { reason: String::from_str("pixel surface allocation") }),
        }
    }
}

impl PixelBuffer {
    /// The raster bytes, row-major, four bytes per pixel.
    pub closed spec fn data_view(&self) -> Seq<u8> {
        self.data@
    }

    /// The buffer's width in pixels.
    pub closed spec fn width_view(&self) -> u32 {
        self.width
    }

    /// The buffer's height in pixels.
    pub closed spec fn height_view(&self) -> u32 {
        self.height
    }

    /// Well-formedness: the byte length matches the declared dimensions.
    pub open spec fn wf(&self) -> bool {
        self.data_view().len() == 4 * self.width_view() * self.height_view()
    }

    /// Wraps raw RGBA bytes as a pixel buffer. Succeeds exactly when the
    /// byte length matches the dimensions.
    pub fn new(width: u32, height: u32, data: Vec<u8>) -> (r: Option<PixelBuffer>)
        ensures
            r.is_some() <==> data@.len() == 4 * width * height,
            r matches Some(b) ==> {
                &&& b.width_view() == width
                &&& b.height_view() == height
                &&& b.data_view() == data@
                &&& b.wf()
            },
    {
        let w: u128 = width as u128;
        let h: u128 = height as u128;
        proof {
            assert(w * h <= 0xffff_ffffu128 * 0xffff_ffffu128) by (nonlinear_arith)
                requires
                    w <= 0xffff_ffffu128,
                    h <= 0xffff_ffffu128,
            ;
            assert(4 * ((width as int) * (height as int)) == 4 * (width as int) * (height
                as int)) by (nonlinear_arith);
        }
        let expected: u128 = 4u128 * (w * h);
        if data.len() as u128 == expected {
            Some(PixelBuffer { data, width, height })
        } else {
            None
        }
    }

    /// The buffer's width in pixels.
    pub fn width(&self) -> (r: u32)
        ensures
            r == self.width_view(),
    {
        self.width
    }

    /// The buffer's height in pixels.
    pub fn height(&self) -> (r: u32)
        ensures
            r == self.height_view(),
    {
        self.height
    }

    /// The raster bytes.
    pub fn data(&self) -> (r: &Vec<u8>)
        ensures
            r@ == self.data_view(),
    {
        &self.data
    }
}

} // verus!
