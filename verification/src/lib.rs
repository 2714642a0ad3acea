//! A cycle-driven model of the DMG handheld: CPU, bus, interrupt controller,
//! DMA engine, timer and pixel pipeline, each with a mathematical model and
//! contracts that tie the executable code to it.
pub mod comps;
