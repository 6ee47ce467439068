//! A host for component-model artifacts: the type-directed codec between
//! command-line tokens and typed values, the export directory and the choice
//! of the function to call, and the lifecycle of a single invocation.
//! Beside them stand the pure parts of the example guest components.

pub mod text;
pub mod codec;
pub mod exports;
pub mod session;
pub mod calculator;
pub mod web;
pub mod stream;
