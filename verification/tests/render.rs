//! Scene building, rasterizing, encoding, and the whole pipeline.

use og_image::asset::AssetKind;
use og_image::asset::ResolvedAsset;
use og_image::encode::ImageFormat;
use og_image::encode::encode;
use og_image::pipeline::HEIGHT;
use og_image::pipeline::WIDTH;
use og_image::pipeline::default_template_text;
use og_image::pipeline::og_image;
use og_image::scene::PixelBuffer;
use og_image::scene::Scene;
use og_image::template::CompiledTemplate;
use og_image::template::RenderVars;

fn no_font() -> Vec<u8> {
    Vec::new()
}

fn sample_pixels() -> Vec<u8> {
    vec![
        255, 0, 0, 255, 0, 255, 0, 255, 0, 0, 255, 255, 255, 255, 0, 255,
    ]
}

#[test]
fn build_rejects_malformed_markup() {
    assert!(Scene::build("<svg", &no_font()).is_err());
    assert!(Scene::build("plain text", &no_font()).is_err());
}

#[test]
fn missing_asset_degrades_gracefully() {
    let markup = "<svg xmlns=\"http://www.w3.org/2000/svg\" width=\"100\" height=\"100\"><image href=\"http://unreachable.invalid/a.png\" width=\"50\" height=\"50\"/><rect width=\"100\" height=\"100\" fill=\"#ff0000\"/></svg>";
    let scene = Scene::build(markup, &no_font()).unwrap();
    let buffer = scene.rasterize(100, 100).unwrap();
    assert_eq!(buffer.width(), 100);
    assert_eq!(buffer.height(), 100);
    assert_eq!(buffer.data().len(), 4 * 100 * 100);
}

#[test]
fn rasterize_exact_dimensions_and_content() {
    let markup = "<svg xmlns=\"http://www.w3.org/2000/svg\" width=\"2\" height=\"2\"><rect width=\"2\" height=\"2\" fill=\"#00ff00\"/></svg>";
    let scene = Scene::build(markup, &no_font()).unwrap();
    let buffer = scene.rasterize(2, 2).unwrap();
    assert_eq!(buffer.data().as_slice(), &[0, 255, 0, 255, 0, 255, 0, 255, 0, 255, 0, 255, 0, 255, 0, 255]);
}

#[test]
fn pixel_buffer_length_must_match() {
    assert!(PixelBuffer::new(2, 2, sample_pixels()).is_some());
    assert!(PixelBuffer::new(2, 2, vec![0u8; 15]).is_none());
    assert!(PixelBuffer::new(3, 2, sample_pixels()).is_none());
}

#[test]
fn png_round_trip_is_lossless() {
    let data = sample_pixels();
    let buffer = PixelBuffer::new(2, 2, data.clone()).unwrap();
    let img = encode(&buffer, ImageFormat::Png).unwrap();
    assert_eq!(img.media_type().as_str(), "image/png");
    let decoded = image::load_from_memory(img.bytes()).unwrap();
    assert_eq!(decoded.width(), 2);
    assert_eq!(decoded.height(), 2);
    assert_eq!(decoded.to_rgba8().into_raw(), data);
}

#[test]
fn webp_round_trip_is_lossless() {
    let data = sample_pixels();
    let buffer = PixelBuffer::new(2, 2, data.clone()).unwrap();
    let img = encode(&buffer, ImageFormat::WebpLossless).unwrap();
    assert_eq!(img.media_type().as_str(), "image/webp");
    let decoded = image::load_from_memory(img.bytes()).unwrap();
    assert_eq!(decoded.width(), 2);
    assert_eq!(decoded.height(), 2);
    assert_eq!(decoded.to_rgba8().into_raw(), data);
}

#[test]
fn jpeg_keeps_dimensions() {
    let buffer = PixelBuffer::new(2, 2, sample_pixels()).unwrap();
    let img = encode(&buffer, ImageFormat::Jpeg).unwrap();
    assert_eq!(img.media_type().as_str(), "image/jpeg");
    let decoded = image::load_from_memory(img.bytes()).unwrap();
    assert_eq!(decoded.width(), 2);
    assert_eq!(decoded.height(), 2);
}

#[test]
fn end_to_end_launch_day() {
    let template = CompiledTemplate::compile(default_template_text().as_str()).unwrap();
    let vars = RenderVars {
        text: Some("Launch Day".to_string()),
    };
    let img = og_image(&template, &no_font(), &vars, &Vec::new(), ImageFormat::Png).unwrap();
    assert_eq!(img.media_type().as_str(), "image/png");
    assert!(img.bytes().len() > 0);
    let decoded = image::load_from_memory(img.bytes()).unwrap();
    assert_eq!(decoded.width(), WIDTH);
    assert_eq!(decoded.height(), HEIGHT);
    let rgba = decoded.to_rgba8();
    // the background rect's fill reaches the buffer
    assert_eq!(rgba.get_pixel(0, 0), &image::Rgba([0x0f, 0x17, 0x2a, 0xff]));
}

#[test]
fn pipeline_is_deterministic() {
    let template = CompiledTemplate::compile(default_template_text().as_str()).unwrap();
    let vars = RenderVars {
        text: Some("Launch Day".to_string()),
    };
    let a = og_image(&template, &no_font(), &vars, &Vec::new(), ImageFormat::Png).unwrap();
    let b = og_image(&template, &no_font(), &vars, &Vec::new(), ImageFormat::Png).unwrap();
    assert_eq!(a.bytes(), b.bytes());
}

#[test]
fn pipeline_succeeds_without_text() {
    let template = CompiledTemplate::compile(default_template_text().as_str()).unwrap();
    let img = og_image(
        &template,
        &no_font(),
        &RenderVars { text: None },
        &Vec::new(),
        ImageFormat::Png,
    )
    .unwrap();
    assert_eq!(img.media_type().as_str(), "image/png");
}

#[test]
fn pipeline_embeds_resolved_asset() {
    // a one-pixel red PNG made by the encoder itself, then embedded by URL
    let pixel = PixelBuffer::new(1, 1, vec![255, 0, 0, 255]).unwrap();
    let png = encode(&pixel, ImageFormat::Png).unwrap();
    let template = CompiledTemplate::compile(
        "<svg xmlns=\"http://www.w3.org/2000/svg\" width=\"4\" height=\"4\"><image href=\"http://assets.example/dot.png\" width=\"4\" height=\"4\" image-rendering=\"pixelated\"/></svg>",
    )
    .unwrap();
    let assets = vec![ResolvedAsset {
        url: "http://assets.example/dot.png".to_string(),
        kind: AssetKind::Png,
        bytes: png.into_bytes(),
    }];
    let img = og_image(
        &template,
        &no_font(),
        &RenderVars { text: None },
        &assets,
        ImageFormat::Png,
    )
    .unwrap();
    let decoded = image::load_from_memory(img.bytes()).unwrap().to_rgba8();
    // the embedded red dot is drawn; without the asset the buffer stays clear
    assert_eq!(decoded.get_pixel(1, 1), &image::Rgba([255, 0, 0, 255]));
}

#[test]
fn rasterize_rejects_zero_dimensions() {
    let markup = "<svg xmlns=\"http://www.w3.org/2000/svg\" width=\"1\" height=\"1\"/>";
    let scene = Scene::build(markup, &no_font()).unwrap();
    assert!(scene.rasterize(0, 5).is_err());
}
