//! A CHIP-8 central processing unit: fetch, decode and execute of 16-bit
//! big-endian opcodes against a 4096-byte memory, sixteen 8-bit registers,
//! a bounded call stack inside the reserved memory region, and a program
//! counter.  Every instruction's bit-level decoding, its arithmetic and
//! flag semantics, and the address-space discipline are stated as contracts
//! over a mathematical model of the machine state.

pub mod cpu;
pub mod laws;
