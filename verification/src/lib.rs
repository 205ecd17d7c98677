//! Verified core of a scripted solid-geometry modeller.

pub mod alias;
pub mod bindings;
pub mod console;
pub mod factory;
pub mod invoke;
pub mod lobject;
pub mod number;
pub mod preview;
pub mod sandbox;
pub mod shape;
pub mod value;
