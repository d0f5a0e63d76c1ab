//! An instruction-set simulator for a small 16-bit educational CPU: a register
//! file, a word-addressed memory, sixteen opcodes and a software-trap mechanism
//! for console I/O. Every handler states, as a contract, the exact effect it has
//! on the machine's state.

pub mod libs;
