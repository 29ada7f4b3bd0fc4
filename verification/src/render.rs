//! Renderers that walk a documentation tree and produce a report.

pub mod text;
