//! Verified core of a small sphere ray tracer: the 8-bit colour model with its
//! display conversion, the per-pixel canvas mapping and frame assembly, and the
//! closest-hit selection that drives the intersection search.

pub mod canvas;
pub mod colour;
pub mod intersect;
