//! Records that describe commands and serializable types, with their
//! mathematical models.

pub mod command;
pub mod parse_result;
pub mod rust_type;
pub mod types;

pub use command::{CommandArg, EntryPoint, Param, TauriCommand};
pub use parse_result::{FileYield, ParseResult};
pub use rust_type::{RustType, TypeExpr};
pub use types::{
    EnumRepresentation, EnumVariant, ExportedEnum, ExportedStruct, FieldModel, Payload, RustEnum,
    RustStruct, StructField, VariantModel, VariantData, WireShape,
};
