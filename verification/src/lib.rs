//! Graphics-resource lifecycle for a windowed scene viewer.
//!
//! The viewer opens a window with an OpenGL context, draws a 3D scene into an
//! offscreen render target and shows that target inside an immediate-mode
//! user interface. This crate holds the decisions of that program as verified
//! state machines: which pixel format and API version the window asks for,
//! when and how the render target is allocated, sized, bound and deleted, how
//! a size in logical units becomes a size in physical pixels, and what is
//! created, drawn and torn down in answer to each signal of the platform.
//!
//! Nothing here touches the window system or the GPU. Every operation
//! returns the commands that the embedding program must issue, in order, and
//! takes back what the platform or the driver answered. What the commands
//! do is stated over a model of the GL state in [`gl`], and what holds of
//! whole runs of the program is proved there and beside each state machine.
//!
//! - [`binary32`]: floating-point numbers as the library carries them.
//! - [`dimension`]: logical units to physical pixels.
//! - [`geometry`]: sizes, and the clamp that keeps every extent above zero.
//! - [`gl`]: the GL commands and the model of the GL state.
//! - [`render_target`]: the offscreen render target and its creation.
//! - [`renderer`]: the scene renderer.
//! - [`scene_display`]: the render target inside the user interface.
//! - [`gl_window`]: the window, its surface and its context.
//! - [`application`]: the lifecycle of the application.
//! - [`scene_viewer_app`], [`left_panel`], [`main_window`], [`config`]: the
//!   clients of the application and their settings.
//! - [`time`]: frame timing.

pub mod application;
pub mod binary32;
pub mod config;
pub mod dimension;
pub mod geometry;
pub mod gl;
pub mod gl_window;
pub mod left_panel;
pub mod main_window;
pub mod render_target;
pub mod renderer;
pub mod scene_display;
pub mod scene_viewer_app;
pub mod time;
