//! The generators. Each walks a descriptor list and emits, per field or per
//! variant, the instruction for the merge / conversion snippet that field's
//! classification calls for. The spec functions beside the generators state
//! the whole dispatch table, one row per (flags, classification) case.

use vstd::prelude::*;
use crate::model::{FieldType, ParsedField, ParsedVariant, StructOptTy};
use crate::fragment::{
    ArmOp, FieldInit, InitFragment, InitOp, MergeFragment, MergeOp, MergeStmt, PredOp, PredTerm,
    VariantArm,
};

verus! {

/// Dispatch for `take`: a non-empty `other` vector wins; any present
/// optional-style value is drained out of `other` into `self`.
pub open spec fn take_op(f: ParsedField) -> MergeOp {
    if f.flatten {
        MergeOp::TakeNested
    } else {
        match f.ty {
            StructOptTy::Vec => MergeOp::SwapIfOtherNonEmpty,
            _ => MergeOp::MoveOtherIfSome,
        }
    }
}

/// Dispatch for `patch`: `self` plugs its gaps from `other`; a populated
/// `self` field is never overwritten.
pub open spec fn patch_op(f: ParsedField) -> MergeOp {
    if f.flatten {
        MergeOp::PatchNested
    } else {
        match f.ty {
            StructOptTy::Vec => MergeOp::SwapIfSelfEmpty,
            _ => MergeOp::MoveOtherIfSelfNone,
        }
    }
}

/// Dispatch for `take_for`: `self` pushes its known values onto the complete
/// target `other`; subcommand fields are an acknowledged gap.
pub open spec fn take_for_op(f: ParsedField) -> MergeOp {
    if f.flatten {
        MergeOp::TakeForNested
    } else if f.subcommand {
        MergeOp::SubcommandUnsupported
    } else {
        match f.ty {
            StructOptTy::Vec => MergeOp::SwapIfSelfNonEmpty,
            StructOptTy::Option | StructOptTy::OptionOption | StructOptTy::OptionVec
                => MergeOp::MoveSelfIntoOtherIfSome,
            StructOptTy::Bool | StructOptTy::Other => MergeOp::UnwrapSelfIntoOther,
        }
    }
}

/// Dispatch for `patch_for`: `self` fills only the gaps of the target
/// `other`; a boolean / plain target field has no gap to fill, so nothing is
/// emitted; subcommand fields are an acknowledged gap.
pub open spec fn patch_for_op(f: ParsedField) -> MergeOp {
    if f.flatten {
        MergeOp::PatchForNested
    } else if f.subcommand {
        MergeOp::SubcommandUnsupported
    } else {
        match f.ty {
            StructOptTy::Vec => MergeOp::SwapIfOtherEmpty,
            StructOptTy::Option | StructOptTy::OptionOption | StructOptTy::OptionVec
                => MergeOp::MoveSelfIfOtherNone,
            StructOptTy::Bool | StructOptTy::Other => MergeOp::EmitNothing,
        }
    }
}

/// Dispatch for `is_empty`: absence counts as empty; vector fields do not
/// participate (an acknowledged gap, not a policy).
pub open spec fn empty_test_op(f: ParsedField) -> PredOp {
    if f.flatten {
        PredOp::DelegateIsEmpty
    } else if f.subcommand {
        PredOp::IsNone
    } else {
        match f.ty {
            StructOptTy::Vec => PredOp::Omitted,
            _ => PredOp::IsNone,
        }
    }
}

/// Dispatch for `is_complete`: every non-vector field must hold data,
/// recursively for flattened and subcommand fields; vector fields do not
/// participate (the same acknowledged gap).
pub open spec fn complete_test_op(f: ParsedField) -> PredOp {
    if f.flatten {
        PredOp::DelegateIsComplete
    } else if f.subcommand {
        PredOp::MapOrIsComplete
    } else {
        match f.ty {
            StructOptTy::Vec => PredOp::Omitted,
            _ => PredOp::IsSome,
        }
    }
}

/// Dispatch for `from` (complete to partial, infallible): every field is
/// wrapped or converted as present.
pub open spec fn from_init_op(f: ParsedField) -> InitOp {
    if f.flatten {
        InitOp::NestedInto
    } else if f.subcommand {
        InitOp::SomeNestedInto
    } else {
        match f.ty {
            StructOptTy::Bool | StructOptTy::Other => InitOp::WrapSome,
            _ => InitOp::Move,
        }
    }
}

/// Dispatch for `try_from` (partial to complete): every unwrap is guarded by
/// the completeness check that the rendered method performs up front.
pub open spec fn try_from_init_op(f: ParsedField) -> InitOp {
    if f.flatten {
        InitOp::NestedTryIntoUnwrap
    } else if f.subcommand {
        InitOp::UnwrapThenTryInto
    } else {
        match f.ty {
            StructOptTy::Bool | StructOptTy::Other => InitOp::Unwrap,
            _ => InitOp::Move,
        }
    }
}

/// Dispatch shared by the enum generators: only the unnamed-inner variant
/// shape is handled; named and unit shapes get a placeholder arm.
pub open spec fn enum_arm_op(v: ParsedVariant, handled: ArmOp) -> ArmOp {
    match v.field_type {
        FieldType::Unnamed => handled,
        FieldType::Named | FieldType::Unit => ArmOp::Unsupported,
    }
}

/// What every merge generator promises: one statement per field, in order,
/// each naming its field and carrying the op the dispatch table gives it.
pub open spec fn merge_fragment_is(
    r: MergeFragment,
    fields: Seq<ParsedField>,
    other: Seq<char>,
    ops: Seq<MergeOp>,
) -> bool {
    &&& r.other@ == other
    &&& r.stmts@.len() == fields.len()
    &&& ops.len() == fields.len()
    &&& forall|i: int|
        0 <= i < fields.len() ==> (#[trigger] r.stmts@[i]).field@ == fields[i].ident@
            && r.stmts@[i].op == ops[i]
}

pub fn take_for_struct(fields: &Vec<ParsedField>, other: &String) -> (r: MergeFragment)
    ensures
        merge_fragment_is(r, fields@, other@, fields@.map_values(|f: ParsedField| take_op(f))),
{
    let mut stmts: Vec<MergeStmt> = Vec::new();
    let mut i: usize = 0;
    while i < fields.len()
        invariant
            i <= fields.len(),
            stmts@.len() == i,
            forall|j: int|
                0 <= j < i ==> (#[trigger] stmts@[j]).field@ == fields@[j].ident@
                    && stmts@[j].op == take_op(fields@[j]),
        decreases fields.len() - i,
    {
        let f = &fields[i];
        let op = if f.structopt_flatten() {
            MergeOp::TakeNested
        } else {
            match f.structopt_ty() {
                StructOptTy::Vec => MergeOp::SwapIfOtherNonEmpty,
                _ => MergeOp::MoveOtherIfSome,
            }
        };
        stmts.push(MergeStmt { field: f.ident().clone(), op });
        i = i + 1;
    }
    MergeFragment { other: other.clone(), stmts }
}

pub fn patch_for_struct(fields: &Vec<ParsedField>, other: &String) -> (r: MergeFragment)
    ensures
        merge_fragment_is(r, fields@, other@, fields@.map_values(|f: ParsedField| patch_op(f))),
{
    let mut stmts: Vec<MergeStmt> = Vec::new();
    let mut i: usize = 0;
    while i < fields.len()
        invariant
            i <= fields.len(),
            stmts@.len() == i,
            forall|j: int|
                0 <= j < i ==> (#[trigger] stmts@[j]).field@ == fields@[j].ident@
                    && stmts@[j].op == patch_op(fields@[j]),
        decreases fields.len() - i,
    {
        let f = &fields[i];
        let op = if f.structopt_flatten() {
            MergeOp::PatchNested
        } else {
            match f.structopt_ty() {
                StructOptTy::Vec => MergeOp::SwapIfSelfEmpty,
                _ => MergeOp::MoveOtherIfSelfNone,
            }
        };
        stmts.push(MergeStmt { field: f.ident().clone(), op });
        i = i + 1;
    }
    MergeFragment { other: other.clone(), stmts }
}

pub fn take_for_for_struct(fields: &Vec<ParsedField>, other: &String) -> (r: MergeFragment)
    ensures
        merge_fragment_is(r, fields@, other@, fields@.map_values(|f: ParsedField| take_for_op(f))),
{
    let mut stmts: Vec<MergeStmt> = Vec::new();
    let mut i: usize = 0;
    while i < fields.len()
        invariant
            i <= fields.len(),
            stmts@.len() == i,
            forall|j: int|
                0 <= j < i ==> (#[trigger] stmts@[j]).field@ == fields@[j].ident@
                    && stmts@[j].op == take_for_op(fields@[j]),
        decreases fields.len() - i,
    {
        let f = &fields[i];
        let op = if f.structopt_flatten() {
            MergeOp::TakeForNested
        } else if f.subcommand() {
            MergeOp::SubcommandUnsupported
        } else {
            match f.structopt_ty() {
                StructOptTy::Vec => MergeOp::SwapIfSelfNonEmpty,
                StructOptTy::Option | StructOptTy::OptionOption | StructOptTy::OptionVec
                    => MergeOp::MoveSelfIntoOtherIfSome,
                StructOptTy::Bool | StructOptTy::Other => MergeOp::UnwrapSelfIntoOther,
            }
        };
        stmts.push(MergeStmt { field: f.ident().clone(), op });
        i = i + 1;
    }
    MergeFragment { other: other.clone(), stmts }
}

pub fn patch_for_for_struct(fields: &Vec<ParsedField>, other: &String) -> (r: MergeFragment)
    ensures
        merge_fragment_is(r, fields@, other@, fields@.map_values(|f: ParsedField| patch_for_op(f))),
{
    let mut stmts: Vec<MergeStmt> = Vec::new();
    let mut i: usize = 0;
    while i < fields.len()
        invariant
            i <= fields.len(),
            stmts@.len() == i,
            forall|j: int|
                0 <= j < i ==> (#[trigger] stmts@[j]).field@ == fields@[j].ident@
                    && stmts@[j].op == patch_for_op(fields@[j]),
        decreases fields.len() - i,
    {
        let f = &fields[i];
        let op = if f.structopt_flatten() {
            MergeOp::PatchForNested
        } else if f.subcommand() {
            MergeOp::SubcommandUnsupported
        } else {
            match f.structopt_ty() {
                StructOptTy::Vec => MergeOp::SwapIfOtherEmpty,
                StructOptTy::Option | StructOptTy::OptionOption | StructOptTy::OptionVec
                    => MergeOp::MoveSelfIfOtherNone,
                StructOptTy::Bool | StructOptTy::Other => MergeOp::EmitNothing,
            }
        };
        stmts.push(MergeStmt { field: f.ident().clone(), op });
        i = i + 1;
    }
    MergeFragment { other: other.clone(), stmts }
}

/// What both predicate generators promise: one term per field, in order,
/// with the op the dispatch table gives it (`Omitted` terms render as no
/// conjunct at all).
pub open spec fn pred_terms_are(r: Seq<PredTerm>, fields: Seq<ParsedField>, ops: Seq<PredOp>) -> bool {
    &&& r.len() == fields.len()
    &&& ops.len() == fields.len()
    &&& forall|i: int|
        0 <= i < fields.len() ==> (#[trigger] r[i]).field@ == fields[i].ident@ && r[i].op == ops[i]
}

pub fn is_empty_for_struct(fields: &Vec<ParsedField>) -> (r: Vec<PredTerm>)
    ensures
        pred_terms_are(r@, fields@, fields@.map_values(|f: ParsedField| empty_test_op(f))),
{
    let mut terms: Vec<PredTerm> = Vec::new();
    let mut i: usize = 0;
    while i < fields.len()
        invariant
            i <= fields.len(),
            terms@.len() == i,
            forall|j: int|
                0 <= j < i ==> (#[trigger] terms@[j]).field@ == fields@[j].ident@
                    && terms@[j].op == empty_test_op(fields@[j]),
        decreases fields.len() - i,
    {
        let f = &fields[i];
        let op = if f.structopt_flatten() {
            PredOp::DelegateIsEmpty
        } else if f.subcommand() {
            PredOp::IsNone
        } else {
            match f.structopt_ty() {
                StructOptTy::Vec => PredOp::Omitted,
                _ => PredOp::IsNone,
            }
        };
        terms.push(PredTerm { field: f.ident().clone(), op });
        i = i + 1;
    }
    terms
}

pub fn is_complete_for_struct(fields: &Vec<ParsedField>) -> (r: Vec<PredTerm>)
    ensures
        pred_terms_are(r@, fields@, fields@.map_values(|f: ParsedField| complete_test_op(f))),
{
    let mut terms: Vec<PredTerm> = Vec::new();
    let mut i: usize = 0;
    while i < fields.len()
        invariant
            i <= fields.len(),
            terms@.len() == i,
            forall|j: int|
                0 <= j < i ==> (#[trigger] terms@[j]).field@ == fields@[j].ident@
                    && terms@[j].op == complete_test_op(fields@[j]),
        decreases fields.len() - i,
    {
        let f = &fields[i];
        let op = if f.structopt_flatten() {
            PredOp::DelegateIsComplete
        } else if f.subcommand() {
            PredOp::MapOrIsComplete
        } else {
            match f.structopt_ty() {
                StructOptTy::Vec => PredOp::Omitted,
                _ => PredOp::IsSome,
            }
        };
        terms.push(PredTerm { field: f.ident().clone(), op });
        i = i + 1;
    }
    terms
}

/// What the `from` generator promises: one initializer per field, in order,
/// with the source operand's identifier carried on the fragment.
pub open spec fn init_fragment_is(
    r: InitFragment,
    fields: Seq<ParsedField>,
    other: Seq<char>,
    ops: Seq<InitOp>,
) -> bool {
    &&& r.other@ == other
    &&& r.inits@.len() == fields.len()
    &&& ops.len() == fields.len()
    &&& forall|i: int|
        0 <= i < fields.len() ==> (#[trigger] r.inits@[i]).field@ == fields[i].ident@
            && r.inits@[i].op == ops[i]
}

pub fn from_for_struct(fields: &Vec<ParsedField>, other: &String) -> (r: InitFragment)
    ensures
        init_fragment_is(r, fields@, other@, fields@.map_values(|f: ParsedField| from_init_op(f))),
{
    let mut inits: Vec<FieldInit> = Vec::new();
    let mut i: usize = 0;
    while i < fields.len()
        invariant
            i <= fields.len(),
            inits@.len() == i,
            forall|j: int|
                0 <= j < i ==> (#[trigger] inits@[j]).field@ == fields@[j].ident@
                    && inits@[j].op == from_init_op(fields@[j]),
        decreases fields.len() - i,
    {
        let f = &fields[i];
        let op = if f.structopt_flatten() {
            InitOp::NestedInto
        } else if f.subcommand() {
            InitOp::SomeNestedInto
        } else {
            match f.structopt_ty() {
                StructOptTy::Bool | StructOptTy::Other => InitOp::WrapSome,
                _ => InitOp::Move,
            }
        };
        inits.push(FieldInit { field: f.ident().clone(), op });
        i = i + 1;
    }
    InitFragment { other: other.clone(), inits }
}

/// What the `try_from` generator promises. The rendered method wraps these
/// initializers under the up-front completeness check — it fails by handing
/// the still-partial value back when the check is false, and only then may
/// each initializer unwrap the presence the check proved.
pub fn try_from_for_struct(fields: &Vec<ParsedField>) -> (r: Vec<FieldInit>)
    ensures
        r@.len() == fields@.len(),
        forall|i: int|
            0 <= i < fields@.len() ==> (#[trigger] r@[i]).field@ == fields@[i].ident@
                && r@[i].op == try_from_init_op(fields@[i]),
{
    let mut inits: Vec<FieldInit> = Vec::new();
    let mut i: usize = 0;
    while i < fields.len()
        invariant
            i <= fields.len(),
            inits@.len() == i,
            forall|j: int|
                0 <= j < i ==> (#[trigger] inits@[j]).field@ == fields@[j].ident@
                    && inits@[j].op == try_from_init_op(fields@[j]),
        decreases fields.len() - i,
    {
        let f = &fields[i];
        let op = if f.structopt_flatten() {
            InitOp::NestedTryIntoUnwrap
        } else if f.subcommand() {
            InitOp::UnwrapThenTryInto
        } else {
            match f.structopt_ty() {
                StructOptTy::Bool | StructOptTy::Other => InitOp::Unwrap,
                _ => InitOp::Move,
            }
        };
        inits.push(FieldInit { field: f.ident().clone(), op });
        i = i + 1;
    }
    inits
}

/// What every enum generator promises: one arm per variant, in order,
/// carrying both variant paths and the handled op on unnamed-shape variants
/// only.
pub open spec fn variant_arms_are(
    r: Seq<VariantArm>,
    variants: Seq<ParsedVariant>,
    handled: ArmOp,
) -> bool {
    &&& r.len() == variants.len()
    &&& forall|i: int|
        0 <= i < variants.len() ==> (#[trigger] r[i]).complete_ident@ == variants[i].full_ident@
            && r[i].partial_ident@ == variants[i].full_configopt_ident@
            && r[i].op == enum_arm_op(variants[i], handled)
}

fn arms_for_enum(variants: &Vec<ParsedVariant>, handled: ArmOp) -> (r: Vec<VariantArm>)
    ensures
        variant_arms_are(r@, variants@, handled),
{
    let mut arms: Vec<VariantArm> = Vec::new();
    let mut i: usize = 0;
    while i < variants.len()
        invariant
            i <= variants.len(),
            arms@.len() == i,
            forall|j: int|
                0 <= j < i ==> (#[trigger] arms@[j]).complete_ident@ == variants@[j].full_ident@
                    && arms@[j].partial_ident@ == variants@[j].full_configopt_ident@
                    && arms@[j].op == enum_arm_op(variants@[j], handled),
        decreases variants.len() - i,
    {
        let v = &variants[i];
        let op = match v.field_type() {
            FieldType::Unnamed => handled,
            FieldType::Named | FieldType::Unit => ArmOp::Unsupported,
        };
        arms.push(VariantArm {
            complete_ident: v.full_ident().clone(),
            partial_ident: v.full_configopt_ident().clone(),
            op,
        });
        i = i + 1;
    }
    arms
}

pub fn is_complete_for_enum(variants: &Vec<ParsedVariant>) -> (r: Vec<VariantArm>)
    ensures
        variant_arms_are(r@, variants@, ArmOp::IsCompleteInner),
{
    arms_for_enum(variants, ArmOp::IsCompleteInner)
}

pub fn take_for_enum(variants: &Vec<ParsedVariant>) -> (r: Vec<VariantArm>)
    ensures
        variant_arms_are(r@, variants@, ArmOp::TakeInner),
{
    arms_for_enum(variants, ArmOp::TakeInner)
}

pub fn from_for_enum(variants: &Vec<ParsedVariant>) -> (r: Vec<VariantArm>)
    ensures
        variant_arms_are(r@, variants@, ArmOp::FromInner),
{
    arms_for_enum(variants, ArmOp::FromInner)
}

pub fn try_from_for_enum(variants: &Vec<ParsedVariant>) -> (r: Vec<VariantArm>)
    ensures
        variant_arms_are(r@, variants@, ArmOp::TryFromInner),
{
    arms_for_enum(variants, ArmOp::TryFromInner)
}

} // verus!
