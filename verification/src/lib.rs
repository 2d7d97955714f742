//! A Sierpinski-triangle fractal for a 2D canvas, planned as a list of
//! drawing operations.
//!
//! The library touches no canvas. [`fractal::draw_sierpinski`] subdivides a
//! triangle level by level and writes the operations that fill every corner
//! triangle in a colour drawn at random; [`scene::render_scene`] puts an
//! image under the fractal; [`run::Run`] says in which order a run acquires
//! its surface, loads its image and draws, and what each failure ends in.
//! The caller owns the surface: it carries the operations out and reports
//! to the run what happened.
//!
//! Coordinates are integers, see [`geometry`]; [`scene::Scene::from_pixels`]
//! picks the scale at which a drawing is exact.

pub mod canvas;
pub mod color;
pub mod fractal;
pub mod geometry;
pub mod run;
pub mod scene;
