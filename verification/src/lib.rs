//! Smoothie's verified core: argument replay, launch dispatch, progress
//! tracking of the VapourSynth pipe and the plans of the render pipelines.

pub mod text;
pub mod cli;
pub mod replay;
pub mod pattern;
pub mod progress;
pub mod render;

