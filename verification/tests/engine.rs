//! Template engine, escaping and asset-resolution behaviour.

use og_image::asset::AssetKind;
use og_image::asset::AssetResolution;
use og_image::asset::FetchOutcome;
use og_image::asset::ResolvedAsset;
use og_image::asset::classify_content_type;
use og_image::asset::data_uri;
use og_image::asset::embed_assets;
use og_image::asset::resolve_fetch_outcome;
use og_image::escape::escape_markup;
use og_image::template::CompiledTemplate;
use og_image::template::RenderVars;

#[test]
fn escape_markup_metacharacters() {
    let escaped = escape_markup("<script>alert('x') & \"y\"</script>");
    assert_eq!(
        escaped,
        "&lt;script&gt;alert(&apos;x&apos;) &amp; &quot;y&quot;&lt;/script&gt;"
    );
}

#[test]
fn escape_markup_plain_text_unchanged() {
    assert_eq!(escape_markup("Launch Day"), "Launch Day");
    assert_eq!(escape_markup(""), "");
}

#[test]
fn compile_rejects_unbalanced_delimiters() {
    assert!(CompiledTemplate::compile("Hello {{ text").is_err());
}

#[test]
fn compile_rejects_unknown_construct() {
    assert!(CompiledTemplate::compile("{% bogus %}").is_err());
}

#[test]
fn render_substitutes_text() {
    let t = CompiledTemplate::compile("A{{ text }}B").unwrap();
    let vars = RenderVars {
        text: Some("Launch Day".to_string()),
    };
    assert_eq!(t.render(&vars).unwrap(), "ALaunch DayB");
}

#[test]
fn render_escapes_injected_markup() {
    let t = CompiledTemplate::compile("A{{ text }}B").unwrap();
    let vars = RenderVars {
        text: Some("<script>".to_string()),
    };
    let out = t.render(&vars).unwrap();
    assert_eq!(out, "A&lt;script&gt;B");
    assert!(!out.contains("<script>"));
}

#[test]
fn default_fallback_scenario() {
    let t = CompiledTemplate::compile("Hello, {{ text | default: 'World' }}!").unwrap();
    let out = t.render(&RenderVars { text: None }).unwrap();
    assert_eq!(out, "Hello, World!");
}

#[test]
fn default_not_taken_when_value_given() {
    let t = CompiledTemplate::compile("Hello, {{ text | default: 'World' }}!").unwrap();
    let vars = RenderVars {
        text: Some("Moon".to_string()),
    };
    assert_eq!(t.render(&vars).unwrap(), "Hello, Moon!");
}

#[test]
fn classify_known_content_types() {
    assert_eq!(classify_content_type("image/png"), Some(AssetKind::Png));
    assert_eq!(classify_content_type("image/jpeg"), Some(AssetKind::Jpeg));
    assert_eq!(classify_content_type("image/gif"), Some(AssetKind::Gif));
    assert_eq!(
        classify_content_type("image/svg+xml"),
        Some(AssetKind::NestedSvg)
    );
}

#[test]
fn classify_unknown_content_types() {
    assert_eq!(classify_content_type("text/html"), None);
    assert_eq!(classify_content_type(""), None);
    assert_eq!(classify_content_type("image/PNG"), None);
}

#[test]
fn resolve_successful_fetch() {
    let outcome = FetchOutcome {
        success: true,
        content_type: Some("image/png".to_string()),
        body: Some(vec![1, 2, 3]),
    };
    match resolve_fetch_outcome(outcome) {
        AssetResolution::Resolved { kind, bytes } => {
            assert_eq!(kind, AssetKind::Png);
            assert_eq!(bytes, vec![1, 2, 3]);
        }
        AssetResolution::Absent => panic!("expected a resolved asset"),
    }
}

#[test]
fn resolve_degrades_to_absent() {
    let failed = FetchOutcome {
        success: false,
        content_type: Some("image/png".to_string()),
        body: Some(vec![1]),
    };
    assert!(matches!(
        resolve_fetch_outcome(failed),
        AssetResolution::Absent
    ));
    let misdeclared = FetchOutcome {
        success: true,
        content_type: Some("text/html".to_string()),
        body: Some(vec![1]),
    };
    assert!(matches!(
        resolve_fetch_outcome(misdeclared),
        AssetResolution::Absent
    ));
    let no_type = FetchOutcome {
        success: true,
        content_type: None,
        body: Some(vec![1]),
    };
    assert!(matches!(
        resolve_fetch_outcome(no_type),
        AssetResolution::Absent
    ));
    let no_body = FetchOutcome {
        success: true,
        content_type: Some("image/gif".to_string()),
        body: None,
    };
    assert!(matches!(
        resolve_fetch_outcome(no_body),
        AssetResolution::Absent
    ));
}

#[test]
fn data_uri_shape() {
    let uri = data_uri(AssetKind::Png, &vec![0u8, 255u8]);
    assert_eq!(uri, "data:image/png;base64,AP8=");
}

#[test]
fn embed_swaps_reference_for_data_uri() {
    let markup = "<image href=\"http://assets.example/logo.png\"/>";
    let assets = vec![ResolvedAsset {
        url: "http://assets.example/logo.png".to_string(),
        kind: AssetKind::Png,
        bytes: vec![0u8, 255u8],
    }];
    let out = embed_assets(markup, &assets);
    assert_eq!(out, "<image href=\"data:image/png;base64,AP8=\"/>");
}

#[test]
fn embed_with_no_assets_is_identity() {
    let markup = "<image href=\"http://assets.example/logo.png\"/>";
    assert_eq!(embed_assets(markup, &Vec::new()), markup);
}

#[test]
fn embed_replaces_every_occurrence() {
    let out = embed_assets(
        "a URL b URL c",
        &vec![ResolvedAsset {
            url: "URL".to_string(),
            kind: AssetKind::Gif,
            bytes: vec![7u8],
        }],
    );
    assert_eq!(out, "a data:image/gif;base64,Bw== b data:image/gif;base64,Bw== c");
}

#[test]
fn render_fails_for_undeclared_variable() {
    let t = CompiledTemplate::compile("{{ other }}").unwrap();
    assert!(t.render(&RenderVars { text: None }).is_err());
}

#[test]
fn extract_refs_in_document_order() {
    let markup = "<svg><image href=\"http://a.example/x.png\"/><image href=\"http://b.example/y.gif\"/></svg>";
    let refs = og_image::refs::extract_refs(markup);
    assert_eq!(
        refs,
        vec![
            "http://a.example/x.png".to_string(),
            "http://b.example/y.gif".to_string()
        ]
    );
}

#[test]
fn extract_refs_none_and_unterminated() {
    assert!(og_image::refs::extract_refs("<svg><rect/></svg>").is_empty());
    assert_eq!(
        og_image::refs::extract_refs("<image href=\"http://a.example/x"),
        vec!["http://a.example/x".to_string()]
    );
}
