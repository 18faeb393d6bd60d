pub mod execute;
pub mod selector;
