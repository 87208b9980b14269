//! Verified PCI configuration-space enumerator.
//!
//! The library discovers the PCI bus topology by walking configuration
//! space through two fixed I/O ports, classifies each function it finds,
//! and can return the address of the first function matching a class
//! signature. All port access goes through the [`config::ConfigAccess`]
//! trait, so the traversal is verified against an abstract model of
//! configuration space; [`sim::SimulatedConfigSpace`] is a verified
//! in-memory instance of that model used for testing topologies.

pub mod class_code;
pub mod config;
pub mod diag;
pub mod scan;
pub mod sim;
pub mod vendor;
