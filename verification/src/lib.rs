//! Instruction-granular tracing of x86 programs: the register file and
//! memory-hint model, the decisions of the single-step controller, and the
//! fixed-width Tiny86 packing of trace steps.

pub mod decode;
pub mod hints;
pub mod pages;
pub mod registers;
pub mod tiny86;
pub mod trace;
pub mod tracee;
pub mod tracer;
