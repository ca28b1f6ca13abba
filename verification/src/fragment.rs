//! Structured generated-code fragments. Each generator returns, per field or
//! per variant, a small tagged instruction naming the exact statement,
//! test, initializer or match arm to splice into the companion type's impl.
//! A renderer outside this library turns each tag into target-language
//! source text; the tag set below is the whole emission vocabulary.

use vstd::prelude::*;

verus! {

/// The per-field statement emitted by the four struct merge generators.
/// `self` is the destination operand of the generated method and `other`
/// the operand named by the fragment (doc lines give the rendered shape).
#[derive(Clone, Copy, PartialEq, Eq, Structural, Debug)]
pub enum MergeOp {
    /// `self.field.take(&mut other.field);` — delegate to the nested partial type.
    TakeNested,
    /// `self.field.patch(&mut other.field);`
    PatchNested,
    /// `self.field.take_for(&mut other.field);`
    TakeForNested,
    /// `self.field.patch_for(&mut other.field);`
    PatchForNested,
    /// `if !other.field.is_empty() { swap(&mut self.field, &mut other.field); }`
    SwapIfOtherNonEmpty,
    /// `if self.field.is_empty() { swap(&mut self.field, &mut other.field); }`
    SwapIfSelfEmpty,
    /// `if !self.field.is_empty() { swap(&mut other.field, &mut self.field); }`
    SwapIfSelfNonEmpty,
    /// `if other.field.is_empty() { swap(&mut other.field, &mut self.field); }`
    SwapIfOtherEmpty,
    /// `if other.field.is_some() { self.field = other.field.take(); }`
    MoveOtherIfSome,
    /// `if self.field.is_none() { self.field = other.field.take(); }`
    MoveOtherIfSelfNone,
    /// `if self.field.is_some() { other.field = self.field.take(); }`
    MoveSelfIntoOtherIfSome,
    /// `if let Some(value) = self.field.take() { other.field = value; }`
    UnwrapSelfIntoOther,
    /// `if other.field.is_none() { other.field = self.field.take(); }`
    MoveSelfIfOtherNone,
    /// No statement at all: the operation has no effect on this field kind.
    EmitNothing,
    /// Marker comment only: subcommand merge in this direction is an
    /// acknowledged gap, not a handled case.
    SubcommandUnsupported,
}

/// One statement of a merge fragment, acting on the named field.
#[derive(PartialEq, Eq, Debug)]
pub struct MergeStmt {
    pub field: String,
    pub op: MergeOp,
}

/// A whole merge-method body: the identifier of the `other` operand and one
/// statement per field, in field order.
#[derive(PartialEq, Eq, Debug)]
pub struct MergeFragment {
    pub other: String,
    pub stmts: Vec<MergeStmt>,
}

/// The per-field test emitted by the `is_empty` / `is_complete` generators.
/// The rendered method body is the `&&`-conjunction, left to right, of every
/// non-`Omitted` test (an empty conjunction renders as `true`).
#[derive(Clone, Copy, PartialEq, Eq, Structural, Debug)]
pub enum PredOp {
    /// `self.field.is_empty()` — delegate to the nested partial type.
    DelegateIsEmpty,
    /// `self.field.is_complete()` — delegate to the nested partial type.
    DelegateIsComplete,
    /// `self.field.is_none()`
    IsNone,
    /// `self.field.is_some()`
    IsSome,
    /// `self.field.as_ref().map_or(false, |val| val.is_complete())`
    MapOrIsComplete,
    /// The field contributes no conjunct: vector fields are excluded from
    /// emptiness and completeness today (an acknowledged gap).
    Omitted,
}

/// One conjunct of an emptiness / completeness fragment.
#[derive(PartialEq, Eq, Debug)]
pub struct PredTerm {
    pub field: String,
    pub op: PredOp,
}

/// The per-field initializer emitted by the `from` / `try_from` generators
/// for the struct literal that builds the converted value. `other` names the
/// source operand of the conversion.
#[derive(Clone, Copy, PartialEq, Eq, Structural, Debug)]
pub enum InitOp {
    /// `field: other.field.into(),` — recursive owned conversion.
    NestedInto,
    /// `field: Some(other.field.into()),` — present-wrapped recursive conversion.
    SomeNestedInto,
    /// `field: Some(other.field),` — explicit present-wrapping.
    WrapSome,
    /// `field: other.field,` — moved as is.
    Move,
    /// `field: TryInto::try_into(other.field).unwrap(),` — fallible nested
    /// conversion, unwrapped under the caller's completeness check.
    NestedTryIntoUnwrap,
    /// `field: TryInto::try_into(other.field.unwrap()).unwrap(),` — presence
    /// and nested conversion both unwrapped under the completeness check.
    UnwrapThenTryInto,
    /// `field: other.field.unwrap(),` — presence unwrapped under the
    /// completeness check.
    Unwrap,
}

/// One field initializer of a conversion fragment.
#[derive(PartialEq, Eq, Debug)]
pub struct FieldInit {
    pub field: String,
    pub op: InitOp,
}

/// A whole `from`-conversion body: the identifier of the source operand and
/// one initializer per field, in field order.
#[derive(PartialEq, Eq, Debug)]
pub struct InitFragment {
    pub other: String,
    pub inits: Vec<FieldInit>,
}

/// The per-variant match arm emitted by the enum generators.
#[derive(Clone, Copy, PartialEq, Eq, Structural, Debug)]
pub enum ArmOp {
    /// `(partial_ident(inner)) => inner.is_complete(),`
    IsCompleteInner,
    /// `(complete_ident(a), partial_ident(b)) => a.take(b),` — fires only on a
    /// same-variant pair; the generated match leaves other pairs alone.
    TakeInner,
    /// `complete_ident(inner) => Ok(partial_ident(TryInto::try_into(inner).unwrap())),`
    FromInner,
    /// `partial_ident(inner) => complete_ident(TryInto::try_into(inner).unwrap()),`
    TryFromInner,
    /// Marker comment only: named-field and unit variants are an
    /// acknowledged gap across all enum generators.
    Unsupported,
}

/// One match arm of an enum fragment, carrying the variant's path in the
/// complete enum and in the partial companion enum.
#[derive(PartialEq, Eq, Debug)]
pub struct VariantArm {
    pub complete_ident: String,
    pub partial_ident: String,
    pub op: ArmOp,
}

} // verus!
