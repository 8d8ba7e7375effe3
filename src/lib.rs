//! Generation of Dart binding source text from a resolved WIT package.
//!
//! The package graph is modelled in [`model`]. [`names`], [`definitions`]
//! and [`functions`] turn it into Dart type names, type definitions,
//! interface classes and function signatures, through the generator of
//! [`generate`].
//! [`config`] holds the runtime configuration records of the host side.

pub mod config;
pub mod definitions;
pub mod functions;
pub mod generate;
pub mod model;
pub mod names;
pub mod naming;
pub mod runtime;
pub mod text;
