//! Minecraft player heads, flat and isometric, drawn from a skin texture.
//!
//! - [`raster`] holds the pixel buffer that everything here reads and draws
//!   on: cutting a rectangle out of an image and drawing one image over
//!   another.
//! - [`placement`] holds the plan of the isometric head: its nine faces in
//!   drawing order, each with its section, its matrix and the exact numbers
//!   of its translation and scale.
//! - [`render`] holds the two heads. The flat one is made here from end to
//!   end. Of the isometric one this crate cuts the sections of the planned
//!   faces out of the texture and composes the warped faces on the canvas;
//!   the warp itself is arithmetic on floating point numbers and is left to
//!   the caller, who gets every number of it as an exact product.
//! - [`mojang`] decides where a skin comes from: it tells profile identifiers
//!   from texture identifiers, says what to ask of which service, and picks
//!   the default skin that stands in for a profile. It never touches the
//!   network: the caller fetches what a step asks for and hands the outcome
//!   back.

pub mod mojang;
pub mod placement;
pub mod raster;
pub mod render;
