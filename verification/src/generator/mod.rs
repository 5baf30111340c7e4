//! Generation of TypeScript text.

pub mod context;
pub mod declarations;
pub mod type_mapper;

pub use context::{GeneratorContext, GeneratorModel};
