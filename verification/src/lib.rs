//! A verified 2D simulation kernel: point-mass entities moving under
//! accumulated forces, pluggable force fields, boundary policies, and
//! particle systems with spawn/decay bookkeeping.
//!
//! All quantities are plain `i64` simulation units; additions and scalings
//! saturate at the `i64` range instead of overflowing, and divisions
//! truncate toward zero. Fractional tuning coefficients (drag, restitution,
//! spring stiffness, attraction strength) are rationals with a positive
//! denominator. Randomness (spawn velocities, walker steps) is drawn from an
//! injected generator, so a fixed seed yields reproducible ticks.

pub mod num;
pub mod vec2;
pub mod entity;
pub mod boundary;
pub mod forces;
pub mod particle;
pub mod rng;
pub mod simulation;
pub mod walker;
pub mod movers;
pub mod oscillation;
