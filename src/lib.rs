//! A user-mode RV32IMAC interpreter: an instruction decoder for the I, M,
//! A, C and privileged subsets, and a single hart that executes decoded
//! instructions against a flat guest memory, forwarding system calls to a
//! kernel supplied by the embedding program.
pub mod bits;
pub mod encoding;
pub mod formats;
pub mod reg;
pub mod rv32a;
pub mod rv32c;
pub mod rv32d;
pub mod rv32i;
pub mod rv32m;
pub mod rv32s;
pub mod rv64i;
pub mod rv32;
pub mod error;
pub mod memory;
pub mod arith;
pub mod semantics;
pub mod hart;
pub mod machine;
pub mod laws;
pub mod isa;
