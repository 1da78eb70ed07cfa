//! Trellis: a modular builder for bootc container images.
//!
//! The library holds the parts of trellis that decide: how configuration
//! sources are merged and validated, how podman command lines are put
//! together, how stage names and image tags are read, which images a cleanup
//! removes, and how discovered containerfiles are chosen and cached.
//! The program around it runs the commands and touches the filesystem.

pub mod cli;
pub mod config;
pub mod text;
pub mod trellis;
