//! A compilation driver for a small module language: it turns one unit of
//! source text into bytecode artifacts (a script, or one or more modules),
//! resolving a dependency set against a fixed standard-library baseline and
//! producing output as a structured artifact, as canonical serialized bytes,
//! or as an assembled transaction payload.

pub mod address;
pub mod artifact;
pub mod ast;
pub mod codec;
pub mod compile;
pub mod compiler;
pub mod emitter;
pub mod errors;
pub mod event;
pub mod resolver;
pub mod stdlib;
pub mod transaction;
