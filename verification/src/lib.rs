//! A software pixel-buffer compositor.
//!
//! The crate shows an RGBA buffer of one size in a window of another size
//! without a GPU:
//!
//! - [`scaling`] computes where the scaled image lands in the window;
//! - [`compositor`] paints a frame: background, then the image, sampled by
//!   nearest neighbour, as RGBA bytes or as packed words, or lays the image
//!   onto a frame without touching the rest;
//! - [`buffer_ops`] copies a buffer into a frame at its placement in the
//!   window, scaled, centred or filling;
//! - [`renderer`] holds the configuration, validates a request and paints;
//! - [`cache`] keeps one presentable surface per window and decides when one
//!   must be created anew;
//! - [`platform`] resolves what the display server can do;
//! - [`error`] names what can go wrong.
//!
//! Nothing here touches a window or the process environment. The caller
//! queries the window, creates and presents surfaces, and hands sizes, byte
//! slices and surface handles to the functions of this crate.

pub mod buffer_ops;
pub mod cache;
pub mod compositor;
pub mod error;
pub mod platform;
pub mod renderer;
pub mod scaling;

pub use cache::SurfaceCache;
pub use error::RenderError;
pub use renderer::{render_pixels, PixelRenderer, RenderOptions};
pub use scaling::{Placement, ScaleMode};
