pub mod branches;
pub mod bus;
pub mod cart;
pub mod common;
pub mod cpu;
pub mod cpu_cb;
pub mod cpu_fetch;
pub mod cpu_proc;
pub mod cpu_step;
pub mod cpu_timing;
pub mod cpu_util;
pub mod dbg;
pub mod dma;
pub mod emu;
pub mod instructions;
pub mod interrupts;
pub mod io;
pub mod lcd;
pub mod pacing;
pub mod ppu;
pub mod ppu_cadence;
pub mod ppu_pipeline;
pub mod ppu_sm;
pub mod ram;
pub mod stack;
pub mod theorems;
pub mod timer;
