//! Bootstrap display layer of a freestanding kernel image: a memory-mapped
//! text surface, the writer that renders bytes into it with cursor tracking
//! and scrolling, and the whole-program phase machine (boot, render, idle,
//! fault) whose only observable output is the surface.

pub mod screen;
pub mod writer;
pub mod laws;
pub mod machine;
