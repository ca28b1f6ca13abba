//! What the emitted merge statements and presence tests mean at run time,
//! field by field, and the proof that the generators' dispatch agrees with
//! the record semantics: for every field classification, interpreting the
//! instruction the generator emits over a model field of that
//! classification's shape gives exactly the per-field rule that the record
//! operations follow. Delegating instructions (flattened and subcommand
//! fields) recurse into a nested value and so have no meaning over a single
//! flat field; the agreement theorems leave them out.

use vstd::prelude::*;
use crate::fragment::{MergeOp, PredOp};
use crate::generate::{complete_test_op, empty_test_op, patch_for_op, patch_op, take_for_op, take_op};
use crate::model::{ParsedField, StructOptTy};
use crate::partial::{
    field_is_complete, field_is_empty, patch_field, patch_for_field, take_field, take_for_field,
    CompleteFieldV, PartialFieldV,
};

verus! {

/// The model shape a partial field of the given classification has: a
/// vector field is `Items`, a boolean / plain field a bare `Value` slot,
/// and every option-style field an `Optional` slot.
pub open spec fn partial_shape_matches(f: ParsedField, v: PartialFieldV) -> bool {
    match f.ty {
        StructOptTy::Vec => v is Items,
        StructOptTy::Bool | StructOptTy::Other => v is Value,
        StructOptTy::Option | StructOptTy::OptionOption | StructOptTy::OptionVec => v is Optional,
    }
}

/// The model shape the complete side of the given classification has.
pub open spec fn complete_shape_matches(f: ParsedField, v: CompleteFieldV) -> bool {
    match f.ty {
        StructOptTy::Vec => v is Items,
        StructOptTy::Bool | StructOptTy::Other => v is Value,
        StructOptTy::Option | StructOptTy::OptionOption | StructOptTy::OptionVec => v is Optional,
    }
}

/// What the emitted `is_some()` answers on a slot-shaped field (a vector
/// field never receives a presence test).
pub open spec fn slot_is_some(v: PartialFieldV) -> bool {
    match v {
        PartialFieldV::Value(o) => o is Some,
        PartialFieldV::Optional(o) => o is Some,
        PartialFieldV::Items(_) => false,
    }
}

/// What the emitted `is_empty()` answers on a vector-shaped field.
pub open spec fn items_are_empty(v: PartialFieldV) -> bool {
    match v {
        PartialFieldV::Items(s) => s.len() == 0,
        _ => true,
    }
}

/// What the emitted `take()` leaves behind in a drained slot.
pub open spec fn drained(v: PartialFieldV) -> PartialFieldV {
    match v {
        PartialFieldV::Value(_) => PartialFieldV::Value(None),
        PartialFieldV::Optional(_) => PartialFieldV::Optional(None),
        PartialFieldV::Items(s) => PartialFieldV::Items(s),
    }
}

/// Runtime meaning of one emitted statement on a (self, other) pair of
/// partial fields, read straight off the statement's code: the swap forms
/// exchange the two vectors under their emptiness guard, the move forms
/// assign `other`'s drained slot into `self` under their presence guard.
/// Statements that delegate, or that pair a partial field with a complete
/// one, leave a flat partial pair alone.
pub open spec fn merge_stmt_meaning(op: MergeOp, s: PartialFieldV, o: PartialFieldV) -> (
    PartialFieldV,
    PartialFieldV,
) {
    match op {
        MergeOp::SwapIfOtherNonEmpty => if !items_are_empty(o) {
            (o, s)
        } else {
            (s, o)
        },
        MergeOp::SwapIfSelfEmpty => if items_are_empty(s) {
            (o, s)
        } else {
            (s, o)
        },
        MergeOp::MoveOtherIfSome => if slot_is_some(o) {
            (o, drained(o))
        } else {
            (s, o)
        },
        MergeOp::MoveOtherIfSelfNone => if !slot_is_some(s) {
            (o, drained(o))
        } else {
            (s, o)
        },
        _ => (s, o),
    }
}

/// Runtime meaning of one emitted statement on a (partial, complete) pair,
/// for the push-direction operations.
pub open spec fn merge_stmt_meaning_for(op: MergeOp, p: PartialFieldV, c: CompleteFieldV) -> (
    PartialFieldV,
    CompleteFieldV,
) {
    match (op, p, c) {
        (MergeOp::SwapIfSelfNonEmpty, PartialFieldV::Items(x), CompleteFieldV::Items(y)) => if x.len()
            > 0 {
            (PartialFieldV::Items(y), CompleteFieldV::Items(x))
        } else {
            (p, c)
        },
        (MergeOp::SwapIfOtherEmpty, PartialFieldV::Items(x), CompleteFieldV::Items(y)) => if y.len()
            == 0 {
            (PartialFieldV::Items(y), CompleteFieldV::Items(x))
        } else {
            (p, c)
        },
        (
            MergeOp::MoveSelfIntoOtherIfSome,
            PartialFieldV::Optional(a),
            CompleteFieldV::Optional(_),
        ) => if a is Some {
            (PartialFieldV::Optional(None), CompleteFieldV::Optional(a))
        } else {
            (p, c)
        },
        (MergeOp::UnwrapSelfIntoOther, PartialFieldV::Value(a), CompleteFieldV::Value(v)) => (
            PartialFieldV::Value(None),
            if a is Some {
                CompleteFieldV::Value(a->0)
            } else {
                CompleteFieldV::Value(v)
            },
        ),
        (MergeOp::MoveSelfIfOtherNone, PartialFieldV::Optional(a), CompleteFieldV::Optional(b)) => if b
            is None {
            (PartialFieldV::Optional(None), CompleteFieldV::Optional(a))
        } else {
            (p, c)
        },
        _ => (p, c),
    }
}

/// Runtime value of one emitted conjunct on the field it tests. An
/// `Omitted` field contributes no conjunct, which is the same as
/// contributing `true`; the delegating tests recurse into a nested value
/// and mean `true` only over a flat field, where the theorems do not apply
/// to them.
pub open spec fn pred_term_meaning(op: PredOp, v: PartialFieldV) -> bool {
    match op {
        PredOp::IsNone => !slot_is_some(v),
        PredOp::IsSome => slot_is_some(v),
        _ => true,
    }
}

/// Agreement: on a field of any non-flattened classification, the statement
/// the `take` generator emits means exactly the `take` rule of the record
/// semantics.
pub proof fn lemma_take_dispatch_agrees(f: ParsedField, s: PartialFieldV, o: PartialFieldV)
    requires
        !f.flatten,
        partial_shape_matches(f, s),
        partial_shape_matches(f, o),
    ensures
        merge_stmt_meaning(take_op(f), s, o) == take_field(s, o),
{
}

/// Agreement for the `patch` generator's dispatch.
pub proof fn lemma_patch_dispatch_agrees(f: ParsedField, s: PartialFieldV, o: PartialFieldV)
    requires
        !f.flatten,
        partial_shape_matches(f, s),
        partial_shape_matches(f, o),
    ensures
        merge_stmt_meaning(patch_op(f), s, o) == patch_field(s, o),
{
}

/// Agreement for the `take_for` generator's dispatch, on the field kinds it
/// handles (flattened fields delegate and subcommand fields are its
/// acknowledged gap).
pub proof fn lemma_take_for_dispatch_agrees(f: ParsedField, p: PartialFieldV, c: CompleteFieldV)
    requires
        !f.flatten,
        !f.subcommand,
        partial_shape_matches(f, p),
        complete_shape_matches(f, c),
    ensures
        merge_stmt_meaning_for(take_for_op(f), p, c) == take_for_field(p, c),
{
}

/// Agreement for the `patch_for` generator's dispatch, on the field kinds
/// it handles: in particular, the boolean / plain case emits nothing, and
/// the per-field rule indeed changes nothing there.
pub proof fn lemma_patch_for_dispatch_agrees(f: ParsedField, p: PartialFieldV, c: CompleteFieldV)
    requires
        !f.flatten,
        !f.subcommand,
        partial_shape_matches(f, p),
        complete_shape_matches(f, c),
    ensures
        merge_stmt_meaning_for(patch_for_op(f), p, c) == patch_for_field(p, c),
{
}

/// Agreement for the `is_empty` generator: the emitted conjunct answers the
/// field's emptiness contribution, the omitted vector conjunct included.
pub proof fn lemma_empty_dispatch_agrees(f: ParsedField, v: PartialFieldV)
    requires
        !f.flatten,
        !f.subcommand,
        partial_shape_matches(f, v),
    ensures
        pred_term_meaning(empty_test_op(f), v) == field_is_empty(v),
{
}

/// Agreement for the `is_complete` generator: the emitted conjunct answers
/// the field's completeness contribution — so the load-bearing invariant of
/// `try_from` holds: every field its initializers unwrap was covered by a
/// conjunct, and vector fields, which no conjunct covers, are never
/// unwrapped.
pub proof fn lemma_complete_dispatch_agrees(f: ParsedField, v: PartialFieldV)
    requires
        !f.flatten,
        !f.subcommand,
        partial_shape_matches(f, v),
    ensures
        pred_term_meaning(complete_test_op(f), v) == field_is_complete(v),
{
}

} // verus!
