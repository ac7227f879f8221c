//! A small source-to-source shader pipeline for 2D signed-distance-field
//! scenes: a scene-description compiler that parses a declarative scene
//! document and emits procedural shader source by template injection, and
//! a compile-orchestration layer that expands one generated shader into a
//! fixed matrix of external-compiler jobs.
//!
//! The library computes; the thin binary around it does the reading,
//! writing and process launching.
pub mod codec;
pub mod constants;
pub mod json;
pub mod scene_parsing;
pub mod slang_utils;
pub mod text;
