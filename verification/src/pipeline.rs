//! The pipeline orchestrator: template → markup → scene → pixels → bytes,
//! in fixed order, each stage at most once, every stage failure mapped to a
//! uniform error that names the stage.

use vstd::prelude::*;
use vstd::string::*;

use crate::asset::ResolvedAsset;
use crate::asset::embed_assets;
use crate::asset::embed_spec;
use crate::encode::ImageFormat;
use crate::encode::OutputImage;
use crate::encode::encode;
use crate::encode::encoded_bytes_of;
use crate::encode::media_type_spec;
use crate::escape::escape_spec;
use crate::scene::Scene;
use crate::scene::pixels_of;
use crate::scene::raster_dims_ok;
use crate::scene::svg_scene_ok;
use crate::template::CompiledTemplate;
use crate::template::RenderVars;
use crate::template::rendered_of;
use crate::template::text_or_empty;

verus! {

/// The fixed output width of every pixel buffer and output image.
pub const WIDTH: u32 = 1200;

/// The fixed output height of every pixel buffer and output image.
pub const HEIGHT: u32 = 630;

/// The pipeline stage at which a request failed.
#[derive(Clone, Copy, Debug, PartialEq, Eq, Structural)]
pub enum Stage {
    Render,
    Parse,
    Raster,
    Encode,
}

/// A request's uniform failure value: which stage failed, and why, in a
/// stable human-readable form.
#[derive(Debug)]
pub struct PipelineError {
    pub stage: Stage,
    pub reason: String,
}

/// The markup one request renders: the template applied to the escaped
/// `text` value (empty when absent).
pub open spec fn pipeline_markup(tmpl: Seq<char>, vars: RenderVars) -> Option<Seq<char>> {
    rendered_of(tmpl, escape_spec(text_or_empty(vars)))
}

/// The finished container bytes one request produces, as a function of the
/// template text, the font bytes, the variables, the resolved assets and the
/// chosen container — or nothing when some stage fails.
pub open spec fn pipeline_image(
    tmpl: Seq<char>,
    font: Seq<u8>,
    vars: RenderVars,
    assets: Seq<ResolvedAsset>,
    format: ImageFormat,
) -> Option<Seq<u8>> {
    match pipeline_markup(tmpl, vars) {
        Some(markup) => {
            let embedded = embed_spec(markup, assets);
            if svg_scene_ok(embedded, font) {
                encoded_bytes_of(format, pixels_of(embedded, font, WIDTH, HEIGHT), WIDTH, HEIGHT)
            } else {
                None
            }
        },
        None => None,
    }
}

/// Runs the whole pipeline for one request: renders the template with the
/// escaped variables, builds the vector scene, rasterizes it at the fixed
/// WIDTH x HEIGHT, and encodes the buffer into the chosen container. Each
/// stage runs at most once; the first failure short-circuits, carrying the
/// stage that failed.
pub fn og_image(
    template: &CompiledTemplate,
    font: &Vec<u8>,
    vars: &RenderVars,
    assets: &Vec<ResolvedAsset>,
    format: ImageFormat,
) -> (r: Result<OutputImage, PipelineError>)
    ensures
        r.is_ok() == pipeline_image(template.source_view(), font@, *vars, assets@, format).is_some(),
        r matches Ok(img) ==> {
            &&& pipeline_image(template.source_view(), font@, *vars, assets@, format) == Some(
                img.bytes_view(),
            )
            &&& img.media_type_view() == media_type_spec(format)
        },
        pipeline_markup(template.source_view(), *vars) is None ==> (r matches Err(e) && e.stage
            == Stage::Render),
        pipeline_markup(template.source_view(), *vars) matches Some(m) && !svg_scene_ok(
            embed_spec(m, assets@),
            font@,
        ) ==> (r matches Err(e) && e.stage == Stage::Parse),
        pipeline_markup(template.source_view(), *vars) matches Some(m) && svg_scene_ok(
            embed_spec(m, assets@),
            font@,
        ) && encoded_bytes_of(
            format,
            pixels_of(embed_spec(m, assets@), font@, WIDTH, HEIGHT),
            WIDTH,
            HEIGHT,
        ) is None ==> (r matches Err(e) && e.stage == Stage::Encode),
{
    let markup = match template.render(vars) {
        Ok(m) => m,
        Err(e) => return Err(PipelineError { stage: Stage::Render, reason: e.reason }),
    };
    let embedded = embed_assets(markup.as_str(), assets);
    let scene = match Scene::build(embedded.as_str(), font) {
        Ok(s) => s,
        Err(e) => return Err(PipelineError { stage: Stage::Parse, reason: e.reason }),
    };
    let buffer = match scene.rasterize(WIDTH, HEIGHT) {
        Ok(b) => b,
        Err(e) => return Err(PipelineError { stage: Stage::Raster, reason: e.reason }),
    };
    assert(raster_dims_ok(WIDTH, HEIGHT));
    match encode(&buffer, format) {
        Ok(img) => Ok(img),
        Err(e) => Err(PipelineError { stage: Stage::Encode, reason: e.reason }),
    }
}

/// Law: the pipeline is deterministic. For a fixed template, fixed font
/// bytes, fixed variables, fixed resolved assets and a fixed container, any
/// two successful renders produce byte-identical output images.
pub proof fn lemma_pipeline_deterministic(
    tmpl: Seq<char>,
    font: Seq<u8>,
    vars: RenderVars,
    assets: Seq<ResolvedAsset>,
    format: ImageFormat,
    b1: Seq<u8>,
    b2: Seq<u8>,
)
    requires
        pipeline_image(tmpl, font, vars, assets, format) == Some(b1),
        pipeline_image(tmpl, font, vars, assets, format) == Some(b2),
    ensures
        b1 == b2,
{
}

/// The SVG template text bundled with this deployment: a fixed-size cover
/// with one `text` placeholder that falls back to a declared default.
pub open spec fn default_template_spec() -> Seq<char> {
    "<svg xmlns=\"http://www.w3.org/2000/svg\" width=\"1200\" height=\"630\" viewBox=\"0 0 1200 630\"><rect width=\"1200\" height=\"630\" fill=\"#0f172a\"/><rect x=\"40\" y=\"40\" width=\"1120\" height=\"550\" fill=\"none\" stroke=\"#38bdf8\" stroke-width=\"4\"/><text x=\"600\" y=\"350\" font-family=\"sans-serif\" font-size=\"72\" fill=\"#f8fafc\" text-anchor=\"middle\">{{ text | default: 'OG Image' }}</text></svg>"@
}

/// The SVG template text bundled with this deployment.
pub fn default_template_text() -> (r: String)
    ensures
        r@ == default_template_spec(),
{
    String::from_str(
        "<svg xmlns=\"http://www.w3.org/2000/svg\" width=\"1200\" height=\"630\" viewBox=\"0 0 1200 630\"><rect width=\"1200\" height=\"630\" fill=\"#0f172a\"/><rect x=\"40\" y=\"40\" width=\"1120\" height=\"550\" fill=\"none\" stroke=\"#38bdf8\" stroke-width=\"4\"/><text x=\"600\" y=\"350\" font-family=\"sans-serif\" font-size=\"72\" fill=\"#f8fafc\" text-anchor=\"middle\">{{ text | default: 'OG Image' }}</text></svg>",
    )
}

} // verus!
