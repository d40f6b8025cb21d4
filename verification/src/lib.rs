//! The deterministic, integer part of a flocking ("boids") simulation: the
//! bucket grid that bounds neighbour search, and the population of boids with
//! the operations that grow, shrink, scatter and advance it.
//!
//! The library never looks inside a boid's position or velocity. Callers own
//! the arithmetic on them and hand it in as functions; the contracts here say
//! which boids those functions were applied to and what became of the results.

pub mod boid;
pub mod boids;
pub mod grid;
pub mod settings;
pub mod utils;
