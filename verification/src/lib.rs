//! Runtime-capability analysis for a quantum intermediate representation.
//!
//! The library walks a compiled package store, decides for every block,
//! statement and expression whether its value is statically known or depends
//! on a quantum measurement outcome, records which runtime features each
//! entity needs, and finally checks a fully analyzed package against the
//! capability set of a compilation target.

pub mod analyzer;
pub mod applications;
pub mod capabilitiesck;
pub mod common;
pub mod compute;
pub mod rca;
pub mod cycle_detection;
pub mod fir;
pub mod index_map;
pub mod scaffolding;
