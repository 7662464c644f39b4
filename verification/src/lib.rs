//! A catalogue of classic object-oriented design patterns, each written as a
//! small, self-contained module and verified with Verus.
//!
//! Every module shows one pattern through a handful of participants. What a
//! participant answers is stated as a mathematical model (a sequence of
//! characters, a tuple of numbers, a list of handlers) in the contract of each
//! function, and the bodies are proved against those contracts.
//!
//! Where a participant is chosen while the program runs, it stands behind its
//! interface as a trait object. A function that fails on some input says so
//! in its `requires`.

// Creational patterns.
pub mod abstract_factory;
pub mod builder;
pub mod factory_method;
pub mod prototype;

// Structural patterns.
pub mod adapter;
pub mod bridge;
pub mod composite;
pub mod decorator;
pub mod facade;
pub mod proxy;

// Behavioural patterns.
pub mod chain_of_responsibility;
pub mod command;
pub mod iterator;
pub mod mediator;
pub mod observer;
pub mod state;
pub mod strategy;

// What the patterns share.
pub mod text;
