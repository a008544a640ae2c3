//! Compression-decision simulator for a QOI-like lossless image codec.
//!
//! Given a sequence of RGBA8 pixels, the library determines, pixel by pixel,
//! which encoding primitive the real codec would emit (cached-color reference,
//! run-length, one of three delta encodings, or a literal-color chunk) without
//! producing an actual byte stream, and accumulates the total compressed size
//! plus a per-pixel chunk-kind sequence for histograms and visualization.

pub mod cost;
pub mod pixel;
pub mod qoi;
pub mod vis;
