//! A checked invocation layer around a native single-precision GEMM.
//!
//! The library holds the parts of a GPU matrix multiply that can be stated
//! and proved: the row-major / column-major layout transform at the device
//! boundary, the translation of two native status-code conventions into one
//! error taxonomy, and the lifecycle of one multiply (device binding, buffer
//! allocation, transfers, handle creation, the GEMM call, and reverse-order
//! release of everything acquired) as a state machine whose driver performs
//! the native calls it asks for.

pub mod error;
pub mod invoker;
pub mod layout;
pub mod lifecycle;
