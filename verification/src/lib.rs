//! Projection of a chess position onto a renderable board view.
//!
//! The library turns an abstract chess position (64 squares, each empty or
//! holding a piece of some kind and side) into a grid of fully derived cell
//! descriptions: checkerboard background color, piece iconography, and
//! optional rank/file labels under either board orientation. A second step
//! turns that grid into a toolkit-agnostic visual tree of colored containers,
//! images and anchored text glyphs.

pub mod board;

pub mod engine;

pub mod icons;

pub mod laws;

pub mod projection;

pub mod render;
