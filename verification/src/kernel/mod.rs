pub mod classifier;
pub mod execution;
pub mod ir;
pub mod pipeline;
pub mod runtime;
