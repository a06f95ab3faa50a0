//! Rendering pipeline for numbered design documents ("RFDs").
//!
//! A document arrives as raw text in one of two markup dialects. This crate
//! wraps that text in a tagged content variant, exposes uniform attribute
//! access over it, and orchestrates rendering the document to a PDF: images
//! referenced by the document are staged into a per-render temporary
//! workspace, the external conversion capability is invoked, and the
//! workspace is torn down afterwards. Network, filesystem and conversion
//! collaborators are supplied by the caller through small traits.

pub mod authn;
pub mod config;
pub mod content;
pub mod errors;
pub mod render;
pub mod text;
