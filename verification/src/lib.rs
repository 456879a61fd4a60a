//! Registers two point sets with Coherent Point Drift (cpd): the rules of a
//! rigid registration, proved.
//!
//! Coherent Point Drift aligns a moving point set with a fixed one without
//! being told which point goes with which. It alternates two steps: the Gauss
//! transform, which weighs every pair of points by how well the current
//! transform brings them together, and an estimate of the rotation,
//! translation and scale that fit these weights best. The kernel bandwidth
//! shrinks as the fit improves, and the run has converged when it stops
//! changing.
//!
//! # Architecture
//!
//! The arithmetic of both steps is in double precision and is the caller's.
//! This crate holds what a run decides, and proves it with Verus:
//!
//! - [`scalar`]: numbers as they cross the boundary, by their binary64 bit
//!   pattern, with comparisons proved against the numbers the patterns stand
//!   for;
//! - [`config`]: the parameters of a run and their ranges;
//! - [`points`], [`normalize`], [`rigid`]: point sets, normalizations and
//!   transforms of consistent shape, and the rules by which a degenerate
//!   estimate is caught or corrected;
//! - [`gauss_transform`]: what the Gauss transform demands of its parameters;
//! - [`runner`]: the registration loop as a state machine, which tells the
//!   caller what to do next and is told what came of it.
//!
//! Every function takes every argument: what is out of range is refused,
//! with the value that was out of range.

pub mod config;
pub mod error;
pub mod gauss_transform;
pub mod normalize;
pub mod points;
pub mod rigid;
pub mod runner;
pub mod scalar;

pub use config::{Parameters, RunConfig};
pub use error::Error;
pub use gauss_transform::Transformer;
pub use normalize::Normalization;
pub use points::PointSet;
pub use rigid::Transform;
pub use runner::{Run, Runner};
pub use scalar::Scalar;
