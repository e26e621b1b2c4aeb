//! A renderer for a display list of axis-aligned shapes onto a GPU surface.
//!
//! The library decides what is drawn: it describes the GPU context and the
//! surface over the bound framebuffer, rebuilds the surface on resize, and turns
//! draw requests and a scene's display list into canvas commands ([`canvas::DrawOp`]),
//! with a model of the canvas's save stack that those commands are proved against.
//! The host runs the commands on its graphics library.

pub mod canvas;
pub mod geometry;
pub mod scene;
pub mod state;
