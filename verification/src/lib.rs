//! A terminal renderer for a rotating three-dimensional torus, drawn as an
//! ASCII character grid.
//!
//! The pipeline samples the torus surface on a fixed angular grid, rotates
//! each point with incremental fixed-point rotations, projects it to screen
//! coordinates with a fixed-point perspective divide, shades it against a
//! fixed light direction, and composites it into a character buffer with a
//! nearest-wins depth test.  All arithmetic is integer fixed-point at scale
//! 1024; the exact floor/truncation semantics of every division are part of
//! the rendered image and are stated in the contracts.

pub mod compositor;
pub mod driver;
pub mod fixed;
pub mod rotator;
pub mod sample;

