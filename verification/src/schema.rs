//! Declarations as a schema author writes them: a named struct whose fields
//! are services, or characteristics with their property lists.

use vstd::prelude::*;
use vstd::string::*;
use crate::token::{Tok, Token};

verus! {

/// The type that a field is declared with.
#[derive(Debug)]
pub enum FieldType {
    /// A type written as one bare name.
    Named(String),
    /// A type written as a longer path, or with arguments.
    Path,
    /// Any other type.
    Other,
}

/// A field type as a value.
pub enum FieldTypeModel {
    Named(Seq<char>),
    Path,
    Other,
}

impl View for FieldType {
    type V = FieldTypeModel;

    open spec fn view(&self) -> FieldTypeModel {
        match *self {
            FieldType::Named(name) => FieldTypeModel::Named(name@),
            FieldType::Path => FieldTypeModel::Path,
            FieldType::Other => FieldTypeModel::Other,
        }
    }
}

impl FieldType {
    /// A copy of the type.
    pub fn duplicate(&self) -> (r: FieldType)
        ensures
            r@ == self@,
    {
        match self {
            FieldType::Named(name) => FieldType::Named(name.clone()),
            FieldType::Path => FieldType::Path,
            FieldType::Other => FieldType::Other,
        }
    }
}

/// One field of a declaration.
#[derive(Debug)]
pub struct FieldDecl {
    pub name: String,
    pub ty: FieldType,
    /// The property list of the field's `characteristic` attribute, where it
    /// has one.
    pub characteristic: Option<Vec<Token>>,
}

/// A field as a value.
pub struct FieldModel {
    pub name: Seq<char>,
    pub ty: FieldTypeModel,
    pub characteristic: Option<Seq<Tok>>,
}

impl View for FieldDecl {
    type V = FieldModel;

    open spec fn view(&self) -> FieldModel {
        FieldModel {
            name: self.name@,
            ty: self.ty@,
            characteristic: match self.characteristic {
                Some(tokens) => Some(tokens.deep_view()),
                None => None,
            },
        }
    }
}

impl DeepView for FieldDecl {
    type V = FieldModel;

    open spec fn deep_view(&self) -> FieldModel {
        self@
    }
}

/// The fields of a declaration, by the shape in which they are written.
#[derive(Debug)]
pub enum Fields {
    /// Fields with names, in braces.
    Named(Vec<FieldDecl>),
    /// Fields without names, in parentheses.
    Unnamed,
    /// No fields at all.
    Unit,
}

/// The fields of a declaration as a value.
pub enum FieldsModel {
    Named(Seq<FieldModel>),
    Unnamed,
    Unit,
}

impl View for Fields {
    type V = FieldsModel;

    open spec fn view(&self) -> FieldsModel {
        match *self {
            Fields::Named(fields) => FieldsModel::Named(fields.deep_view()),
            Fields::Unnamed => FieldsModel::Unnamed,
            Fields::Unit => FieldsModel::Unit,
        }
    }
}

/// The declaration of a server, a service or a client.
#[derive(Debug)]
pub struct StructDecl {
    pub name: String,
    pub fields: Fields,
}

/// A declaration as a value.
pub struct StructModel {
    pub name: Seq<char>,
    pub fields: FieldsModel,
}

impl View for StructDecl {
    type V = StructModel;

    open spec fn view(&self) -> StructModel {
        StructModel { name: self.name@, fields: self.fields@ }
    }
}

} // verus!
