//! An interpreter for the MOS 6502 as it is wired into the NES: the opcode
//! table, the memory bus and the CPU core.
//!
//! Every executable function states what it does over a mathematical model:
//! [`bus::BusView`] for what the bus holds and [`machine::Machine`] for the
//! whole architectural state. [`laws`] holds what follows from the model for
//! every state.
//!
//! Nothing here prints or panics. A fatal condition comes back as a
//! [`fault::Fault`], with the state as it was before the instruction that
//! met it.

pub mod bits;
pub mod bus;
pub mod cpu;
pub mod dispatch;
pub mod fault;
pub mod flags;
pub mod instructions;
pub mod laws;
pub mod machine;
pub mod opcode;
