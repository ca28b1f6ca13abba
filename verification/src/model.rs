//! The field / variant model that the generators consume: a closed
//! classification tag for a field's declared type, plus descriptors carrying
//! the identifiers and flags the generators dispatch on.

use vstd::prelude::*;

verus! {

/// Classification of a field's declared type. Exactly one tag applies to a
/// field; it is assigned upstream, before generation, and decides which merge
/// and conversion rule the generators emit for the field.
#[derive(Clone, Copy, PartialEq, Eq, Structural, Debug)]
pub enum StructOptTy {
    Bool,
    Vec,
    Option,
    OptionOption,
    OptionVec,
    Other,
}

/// Shape of an enum variant: wrapping a single unnamed inner type, named
/// fields, or nothing. Only the unnamed shape is fully handled by the
/// generators; the other two get explicit placeholder emission.
#[derive(Clone, Copy, PartialEq, Eq, Structural, Debug)]
pub enum FieldType {
    Unnamed,
    Named,
    Unit,
}

/// Descriptor of one struct field as the generators see it: its identifier,
/// whether it is a flattened nested partial-capable type, whether it selects
/// among subcommand enum variants, and its type classification.
#[derive(Debug)]
pub struct ParsedField {
    pub ident: String,
    pub flatten: bool,
    pub subcommand: bool,
    pub ty: StructOptTy,
}

impl ParsedField {
    pub fn new(ident: String, flatten: bool, subcommand: bool, ty: StructOptTy) -> (r: ParsedField)
        ensures
            r.ident == ident,
            r.flatten == flatten,
            r.subcommand == subcommand,
            r.ty == ty,
    {
        ParsedField { ident, flatten, subcommand, ty }
    }

    pub fn ident(&self) -> (r: &String)
        ensures
            r == &self.ident,
    {
        &self.ident
    }

    pub fn structopt_flatten(&self) -> (r: bool)
        ensures
            r == self.flatten,
    {
        self.flatten
    }

    pub fn subcommand(&self) -> (r: bool)
        ensures
            r == self.subcommand,
    {
        self.subcommand
    }

    pub fn structopt_ty(&self) -> (r: StructOptTy)
        ensures
            r == self.ty,
    {
        self.ty
    }
}

/// Descriptor of one enum variant: the variant's path in the complete enum,
/// its path in the partial companion enum, and the shape of its fields.
#[derive(Debug)]
pub struct ParsedVariant {
    pub full_ident: String,
    pub full_configopt_ident: String,
    pub field_type: FieldType,
}

impl ParsedVariant {
    pub fn new(full_ident: String, full_configopt_ident: String, field_type: FieldType) -> (r:
        ParsedVariant)
        ensures
            r.full_ident == full_ident,
            r.full_configopt_ident == full_configopt_ident,
            r.field_type == field_type,
    {
        ParsedVariant { full_ident, full_configopt_ident, field_type }
    }

    pub fn full_ident(&self) -> (r: &String)
        ensures
            r == &self.full_ident,
    {
        &self.full_ident
    }

    pub fn full_configopt_ident(&self) -> (r: &String)
        ensures
            r == &self.full_configopt_ident,
    {
        &self.full_configopt_ident
    }

    pub fn field_type(&self) -> (r: FieldType)
        ensures
            r == self.field_type,
    {
        self.field_type
    }
}

} // verus!
