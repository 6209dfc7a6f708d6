//! Tuple-loosening of function declarations.
//!
//! Given the declaration of a function with N typed parameters, [`loose`]
//! produces a sibling function that takes the N arguments as one tuple,
//! unpacks it and calls the given function.

pub mod error;
pub mod laws;
pub mod signature;
pub mod text;
pub mod transform;
pub mod wrapper;

pub use error::LooseError;
pub use signature::FunctionSignature;
pub use signature::Parameter;
pub use signature::ParameterKind;
pub use transform::loose;
pub use transform::Loosened;
pub use wrapper::WrapperFunction;
