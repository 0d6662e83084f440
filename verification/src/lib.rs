//! Durable, validated storage for a cooperative farm-management service.
//!
//! The crate keeps five tables of records (farmers, plots, activities,
//! resources, events) in stable memory, hands out identifiers from a persisted
//! counter, and runs every mutation through a validation pipeline before it
//! touches a table.
//!
//! From the bottom up:
//!
//! - [`backing`] and [`pattern`] hold what is taken on trust: the stable
//!   structures of `ic_stable_structures` and the matcher of `regex`.
//! - [`arena`], [`allocator`] and [`table`] are the memory arena, the
//!   identifier allocator and the generic entity store built on them.
//! - [`frame`] and [`codec`] define the bounded byte encoding of records;
//!   [`farmer`], [`plot`], [`activity`], [`resource`] and [`event`] are the five
//!   kinds of record with their payloads.
//! - [`decimal`] reads and writes identifiers as text; [`message`] names the
//!   faults and the messages that report them; [`validation`] is the pipeline.
//! - [`model`] is the store as a mathematical value, with what each operation
//!   makes of it and the laws that follow; [`store`] is the store itself.

pub mod activity;
pub mod allocator;
pub mod arena;
pub mod backing;
pub mod codec;
pub mod decimal;
pub mod event;
pub mod farmer;
pub mod frame;
pub mod message;
pub mod model;
pub mod pattern;
pub mod plot;
pub mod resource;
pub mod store;
pub mod table;
pub mod validation;
