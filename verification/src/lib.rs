//! Verified core of a superellipse ("squircle") visualiser.
//!
//! All geometry is carried out in fixed-point arithmetic: one screen or
//! world unit is `geom::SCALE` subunits, and every coordinate, slider value
//! and trigonometric factor is an `i64` count of subunits.  The windowing
//! layer converts to and from its own floating-point coordinates at the
//! boundary; everything in this crate is exact integer arithmetic with
//! proved contracts.

pub mod curve;
pub mod geom;
pub mod render;
pub mod slider;
pub mod state;
