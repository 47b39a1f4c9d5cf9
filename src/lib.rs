//! A small stack-based bytecode virtual machine whose execution engine is
//! specified and proved against a mathematical model of each step.
pub mod value;
pub mod program;
pub mod machine;
pub mod laws;
