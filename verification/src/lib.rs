//! Core of an interactive score-editor front end.
//!
//! The library covers the editor's per-frame loop: a key-state
//! edge-detector that turns raw down/up events into one-frame edges, a
//! dispatcher that turns those edges into edit commands, a keyed scene
//! reconciler that keeps a model of the drawing surface up to date at
//! measure granularity, and the two-state frame scheduler that composes
//! them once per tick. The score document itself, the notation-layout
//! engine and the host drawing surface are external collaborators: the
//! host hands their output in as plain values and carries the library's
//! decisions back out.

pub mod command;
pub mod digits;
pub mod input;
pub mod scene;
pub mod session;
