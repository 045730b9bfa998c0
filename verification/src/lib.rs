//! An ephemeris and reference-frame engine for orbital-mechanics
//! computation.
//!
//! Given a celestial-body identifier and an epoch, the registry returns
//! that body's position/velocity state by evaluating stored Chebyshev
//! coefficient windows.  The registry, the record model, the geoid
//! derivation rules and the query dispatch are verified here; numeric
//! payloads (epochs, coefficients, radii, rates) are carried as the bit
//! patterns of IEEE-754 64-bit values, so that the discrete rules about
//! them — which record wins, which geoid is derived, which error is
//! returned — are stated and proved exactly.  The floating-point
//! evaluation itself (the Chebyshev recurrence on real coefficients and
//! the geodetic conversions) lives outside the verified library.

pub mod chebyshev;
pub mod cosm;
pub mod frames;
pub mod ids;
pub mod maps;
pub mod records;
pub mod state;
