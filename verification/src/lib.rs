//! Storage allocation for a generic matrix library.
//!
//! A matrix axis may have its element count fixed at compile time or chosen at
//! run time. This crate resolves that duality into concrete storage: a shape
//! whose two axes are both compile-time constants is backed by a
//! fixed-capacity buffer whose size is determined by the type alone, while a
//! shape with at least one run-time axis is backed by a growable buffer that
//! carries its dimensions alongside the data. The selection happens in the
//! type system, never by a run-time branch.

pub mod allocator;
pub mod dimension;
pub mod storage;
