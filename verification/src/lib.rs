//! Runtime core of a small Scheme-like language: a tagged-word value
//! encoding, arena-backed heap object layouts (pairs, vector-family
//! objects, bytecode objects), the bytecode instruction set, and a static
//! verifier that certifies an instruction sequence safe before execution.

pub mod bytecode;
pub mod heap;
pub mod value;
