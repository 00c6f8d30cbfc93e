//! Collects validated resume data from a scripted sequence of prompts and
//! lays it out as absolutely positioned text operations on a single A4 page.

pub mod collect;
pub mod model;
pub mod numbers;
pub mod render;
pub mod validate;
pub mod viewer;
