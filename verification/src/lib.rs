pub mod context;
pub mod controller;
pub mod cpu;
pub mod ppu;
pub mod renderer;
pub mod rom;

use vstd::prelude::*;

verus! {

/// Count of CPU or PPU clock ticks.
pub type Cycle = u64;

} // verus!
