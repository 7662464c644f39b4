//! Prototype: a new object made by copying an existing one, the prototype,
//! without naming its type.
//!
//! In Rust the pattern is the `Clone` trait: any value of a type that
//! implements it is a prototype. `builder::Car` is one, and its builder
//! hands out copies of the car that it holds. This module adds no type of
//! its own.
