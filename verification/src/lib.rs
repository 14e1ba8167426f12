//! Discovery, classification, caching and dispatch logic for locally stored
//! machine-learning model artifacts.
//!
//! The crate turns a directory listing into typed model descriptors, plans
//! engine load operations per model family, tracks load-once cache state per
//! identifier, and shapes chat requests according to each model's
//! capabilities. Filesystem walking and the inference engine itself live
//! outside this crate; everything here is pure logic over plain values.
pub mod cache;
pub mod classify;
pub mod dispatch;
pub mod model;
pub mod payload;
pub mod present;
pub mod strategy;
pub mod strutil;
