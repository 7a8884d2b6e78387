// The integer side of a Monte Carlo path tracer: image encoding, render
// settings and scan order, the integrator's depth-budget decisions and the
// choice of the nearest hit in a scene. The floating-point geometry, shading
// and sampling stay with the caller.
pub mod integrator;
pub mod ppm;
pub mod render;
pub mod scene;
