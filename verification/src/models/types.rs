//! Serializable struct and enum declarations.

use vstd::prelude::*;
use super::rust_type::{RustType, TypeExpr};

verus! {

/// A field of a struct or of a struct-like enum variant.
#[derive(Debug, Clone)]
pub struct StructField {
    /// The name on the wire: the declared name, or its rename.
    pub name: String,
    /// The field's type.
    pub ty: RustType,
}

/// A serializable struct.
#[derive(Debug, Clone)]
pub struct RustStruct {
    /// The name of the struct.
    pub name: String,
    /// The names of its generic type parameters, in order.
    pub generics: Vec<String>,
    /// Its fields, in order.
    pub fields: Vec<StructField>,
    /// The file that declares it.
    pub source_file: String,
}

/// How an enum's variant tag and payload are laid out when serialized.
#[derive(Debug, Clone)]
pub enum EnumRepresentation {
    /// `{ "VariantModel": payload }`.
    External,
    /// The tag sits beside the payload's own fields.
    Internal { tag: String },
    /// The tag and the payload sit under two keys.
    Adjacent { tag: String, content: String },
    /// No tag at all.
    Untagged,
}

/// What an enum variant carries.
#[derive(Debug, Clone)]
pub enum VariantData {
    /// Nothing.
    Unit,
    /// Unnamed values.
    Tuple(Vec<RustType>),
    /// Named fields.
    Struct(Vec<StructField>),
}

/// A variant of a serializable enum.
#[derive(Debug, Clone)]
pub struct EnumVariant {
    /// The name on the wire.
    pub name: String,
    /// The payload.
    pub data: VariantData,
}

/// A serializable enum.
#[derive(Debug, Clone)]
pub struct RustEnum {
    /// The name of the enum.
    pub name: String,
    /// The names of its generic type parameters, in order.
    pub generics: Vec<String>,
    /// Its variants, in order.
    pub variants: Vec<EnumVariant>,
    /// The file that declares it.
    pub source_file: String,
    /// Its layout when serialized.
    pub representation: EnumRepresentation,
}

/// The model of a field.
pub struct FieldModel {
    pub name: Seq<char>,
    pub ty: TypeExpr,
}

/// The model of a serializable struct.
pub struct ExportedStruct {
    pub name: Seq<char>,
    pub generics: Seq<Seq<char>>,
    pub fields: Seq<FieldModel>,
    pub source_file: Seq<char>,
}

/// The model of an enum's layout when serialized.
pub enum WireShape {
    ExternallyTagged,
    InternallyTagged { tag: Seq<char> },
    AdjacentlyTagged { tag: Seq<char>, content: Seq<char> },
    Untagged,
}

/// The model of a variant's payload.
pub enum Payload {
    Unit,
    Tuple(Seq<TypeExpr>),
    Struct(Seq<FieldModel>),
}

/// The model of an enum variant.
pub struct VariantModel {
    pub name: Seq<char>,
    pub payload: Payload,
}

/// The model of a serializable enum.
pub struct ExportedEnum {
    pub name: Seq<char>,
    pub generics: Seq<Seq<char>>,
    pub shape: WireShape,
    pub variants: Seq<VariantModel>,
    pub source_file: Seq<char>,
}

impl View for StructField {
    type V = FieldModel;

    open spec fn view(&self) -> FieldModel {
        FieldModel { name: self.name@, ty: self.ty@ }
    }
}

impl DeepView for StructField {
    type V = FieldModel;

    open spec fn deep_view(&self) -> FieldModel {
        self@
    }
}

impl View for RustStruct {
    type V = ExportedStruct;

    open spec fn view(&self) -> ExportedStruct {
        ExportedStruct {
            name: self.name@,
            generics: self.generics.deep_view(),
            fields: self.fields.deep_view(),
            source_file: self.source_file@,
        }
    }
}

impl DeepView for RustStruct {
    type V = ExportedStruct;

    open spec fn deep_view(&self) -> ExportedStruct {
        self@
    }
}

impl View for EnumRepresentation {
    type V = WireShape;

    open spec fn view(&self) -> WireShape {
        match self {
            EnumRepresentation::External => WireShape::ExternallyTagged,
            EnumRepresentation::Internal { tag } => WireShape::InternallyTagged { tag: tag@ },
            EnumRepresentation::Adjacent { tag, content } => WireShape::AdjacentlyTagged {
                tag: tag@,
                content: content@,
            },
            EnumRepresentation::Untagged => WireShape::Untagged,
        }
    }
}

impl View for VariantData {
    type V = Payload;

    open spec fn view(&self) -> Payload {
        match self {
            VariantData::Unit => Payload::Unit,
            VariantData::Tuple(types) => Payload::Tuple(types.deep_view()),
            VariantData::Struct(fields) => Payload::Struct(fields.deep_view()),
        }
    }
}

impl View for EnumVariant {
    type V = VariantModel;

    open spec fn view(&self) -> VariantModel {
        VariantModel { name: self.name@, payload: self.data@ }
    }
}

impl DeepView for EnumVariant {
    type V = VariantModel;

    open spec fn deep_view(&self) -> VariantModel {
        self@
    }
}

impl View for RustEnum {
    type V = ExportedEnum;

    open spec fn view(&self) -> ExportedEnum {
        ExportedEnum {
            name: self.name@,
            generics: self.generics.deep_view(),
            shape: self.representation@,
            variants: self.variants.deep_view(),
            source_file: self.source_file@,
        }
    }
}

impl DeepView for RustEnum {
    type V = ExportedEnum;

    open spec fn deep_view(&self) -> ExportedEnum {
        self@
    }
}

} // verus!
