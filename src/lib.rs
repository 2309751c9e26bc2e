//! Procedural generation of 2d maps made of named byte attributes.
use vstd::prelude::*;

pub mod size2d;
pub mod interpolation;
pub mod distance;
pub mod gradient;
pub mod noise;
pub mod generator1d;
pub mod generator2d;
pub mod threshold;
pub mod clusterer2d;
pub mod transformer2d;
pub mod attribute;
pub mod map;
pub mod steps;
pub mod distortion;
pub mod step;
pub mod generation;
pub mod color;
pub mod selector;
pub mod rendering;
