//! NetCheck's core: whether the internet is actually alive (not just whether the link is up),
//! how the tray and flyout present it, and the arithmetic behind latency, live throughput,
//! the speed test and data usage. Probing, timing and the OS counters are done by the
//! caller, which hands their outcomes to the functions here.
use vstd::prelude::*;

pub mod arith;
pub mod net;
pub mod status;
pub mod text;
pub mod usage;

verus! {

} // verus!
