//! Generation of fixed-size social-preview raster images from a parameterized
//! SVG template: variable substitution with markup escaping, remote-asset
//! classification and embedding, vector-scene building, rasterization to an
//! RGBA pixel buffer, and encoding into a delivery image container.

pub mod asset;
pub mod encode;
pub mod escape;
pub mod pipeline;
pub mod refs;
pub mod rewrite;
pub mod scene;
pub mod template;
