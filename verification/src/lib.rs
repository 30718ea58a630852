//! Procedural environment fields: elevation, ocean currents, atmospheric
//! pressure and wind, and surface temperature, derived deterministically from
//! seeded fractal noise over a two-dimensional coordinate domain.
//!
//! All quantities are carried as signed fixed-point reals ([`fixed::Fx`]).
//! The noise kernel is the only outside computation; everything built on it
//!: fractal layering ([`noise`]), the math kernel ([`mathfx`]), the
//! elevation, ocean-current, atmosphere and climate models, and the provider
//! facade ([`provider`]): is specified exactly and verified.

pub mod atmosphere;
pub mod climate;
pub mod elevation;
pub mod fixed;
pub mod gradient;
pub mod mathfx;
pub mod noise;
pub mod ocean;
pub mod params;
pub mod provider;
