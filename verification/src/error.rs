//! The errors of schema loading and compilation.

use vstd::prelude::*;

verus! {

/// One of the four register collections of a schema.
#[derive(Debug, Clone, Copy, PartialEq, Eq, Structural)]
pub enum Category {
    Holding,
    Coil,
    Discrete,
    Input,
}

/// A field that every entry of its kind must carry.
#[derive(Debug, Clone, Copy, PartialEq, Eq, Structural)]
pub enum Field {
    Description,
    Reg,
    Values,
    TrueLabel,
    FalseLabel,
}

/// Why a schema was refused. Each error ends the compilation: no partial
/// result is produced.
#[derive(Debug, Clone, PartialEq, Eq)]
pub enum SchemaError {
    /// The document lacks one of the four collections.
    MissingCollection { category: Category },
    /// The entry at `index` of a collection carries no type tag.
    MissingTypeTag { category: Category, index: usize },
    /// The entry at `index` of a collection carries a type tag that its
    /// collection does not recognize.
    UnsupportedTypeTag { category: Category, index: usize, tag: String },
    /// The entry at `index` of a collection lacks a required field.
    MissingField { category: Category, index: usize, field: Field },
    /// A description or a label does not yield a valid type name.
    InvalidIdentifier { name: String },
}

/// What a `SchemaError` stands for.
pub ghost enum SchemaErrorView {
    MissingCollection { category: Category },
    MissingTypeTag { category: Category, index: usize },
    UnsupportedTypeTag { category: Category, index: usize, tag: Seq<char> },
    MissingField { category: Category, index: usize, field: Field },
    InvalidIdentifier { name: Seq<char> },
}

impl View for SchemaError {
    type V = SchemaErrorView;

    open spec fn view(&self) -> SchemaErrorView {
        match self {
            SchemaError::MissingCollection { category } => SchemaErrorView::MissingCollection {
                category: *category,
            },
            SchemaError::MissingTypeTag { category, index } => SchemaErrorView::MissingTypeTag {
                category: *category,
                index: *index,
            },
            SchemaError::UnsupportedTypeTag { category, index, tag } => {
                SchemaErrorView::UnsupportedTypeTag {
                    category: *category,
                    index: *index,
                    tag: tag@,
                }
            },
            SchemaError::MissingField { category, index, field } => SchemaErrorView::MissingField {
                category: *category,
                index: *index,
                field: *field,
            },
            SchemaError::InvalidIdentifier { name } => SchemaErrorView::InvalidIdentifier {
                name: name@,
            },
        }
    }
}

} // verus!
