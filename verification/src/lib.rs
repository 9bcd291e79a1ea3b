//! A discrete-time simulation engine for populations of leaky
//! integrate-and-fire neurons.
//!
//! State is double-buffered: every read made during a tick observes only what
//! was committed by the end of the previous tick, so the outcome of a tick does
//! not depend on the order in which neurons are visited.
//!
//! The engine is generic over the scalar type `T` that carries voltages,
//! conductances and currents. Contracts speak of `T`'s arithmetic through the
//! operator specifications of `vstd` (`add_spec`, `sub_spec`, ...).

pub mod components;
pub mod dynamical_variable;
pub mod error;
pub mod factories;
pub mod laws;
pub mod models;
pub mod pipeline;
pub mod resources;
pub mod scalar;
pub mod systems;
pub mod world;
