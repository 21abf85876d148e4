//! Column descriptors, selectors and schemas of a chunk store's dataframe API, with
//! their contracts proved.
//!
//! * [`arrow`]: the Arrow datatypes and fields columns carry.
//! * [`names`], [`path`], [`time`]: names, entity paths and their filters, timelines.
//! * [`descriptors`], [`selectors`], [`query`]: what a query asks for and gets.
//! * [`store`]: the store's data layout, its schema, and selector resolution.
//! * [`laws`]: properties relating these operations.
//! * [`components`]: the float-free part of the `LeafTransformMat3x3` component.
//! * [`sorted`], [`text`]: ordered sequences and text operations they rest on.
use vstd::prelude::*;

pub mod arrow;
pub mod components;
pub mod descriptors;
pub mod laws;
pub mod names;
pub mod path;
pub mod query;
pub mod selectors;
pub mod sorted;
pub mod store;
pub mod text;
pub mod time;

verus! {

} // verus!
