//! Renders a coloured quad through OpenGL ES.
//!
//! The library decides what is sent to OpenGL, to the display and to the
//! window, and what is printed; a host performs it and hands the answers back.
pub mod checks;
pub mod config;
pub mod geometry;
pub mod gl;
pub mod lifecycle;
pub mod ownership;
pub mod playback;
pub mod renderer;
pub mod report;
pub mod setup;
pub mod shader;
pub mod startup;
pub mod text;
pub mod trace;
