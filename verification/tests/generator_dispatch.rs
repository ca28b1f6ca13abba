use configopt_core::fragment::{ArmOp, InitOp, MergeOp, PredOp};
use configopt_core::generate::{
    from_for_enum, from_for_struct, is_complete_for_enum, is_complete_for_struct,
    is_empty_for_struct, patch_for_for_struct, patch_for_struct, take_for_enum,
    take_for_for_struct, take_for_struct, try_from_for_enum, try_from_for_struct,
};
use configopt_core::model::{FieldType, ParsedField, ParsedVariant, StructOptTy};

/// One field of every classification, plus a flattened and a subcommand
/// field, in a fixed order.
fn sample_fields() -> Vec<ParsedField> {
    vec![
        ParsedField::new("verbose".to_string(), false, false, StructOptTy::Bool),
        ParsedField::new("args".to_string(), false, false, StructOptTy::Vec),
        ParsedField::new("level".to_string(), false, false, StructOptTy::Option),
        ParsedField::new("color".to_string(), false, false, StructOptTy::OptionOption),
        ParsedField::new("tags".to_string(), false, false, StructOptTy::OptionVec),
        ParsedField::new("name".to_string(), false, false, StructOptTy::Other),
        ParsedField::new("nested".to_string(), true, false, StructOptTy::Other),
        ParsedField::new("cmd".to_string(), false, true, StructOptTy::Other),
    ]
}

fn sample_variants() -> Vec<ParsedVariant> {
    vec![
        ParsedVariant::new(
            "Command::Run".to_string(),
            "ConfigOptCommand::Run".to_string(),
            FieldType::Unnamed,
        ),
        ParsedVariant::new(
            "Command::Build".to_string(),
            "ConfigOptCommand::Build".to_string(),
            FieldType::Named,
        ),
        ParsedVariant::new(
            "Command::Clean".to_string(),
            "ConfigOptCommand::Clean".to_string(),
            FieldType::Unit,
        ),
    ]
}

#[test]
fn take_dispatch_per_kind() {
    let frag = take_for_struct(&sample_fields(), &"other".to_string());
    assert_eq!(frag.other, "other");
    let ops: Vec<MergeOp> = frag.stmts.iter().map(|s| s.op).collect();
    assert_eq!(
        ops,
        vec![
            MergeOp::MoveOtherIfSome,
            MergeOp::SwapIfOtherNonEmpty,
            MergeOp::MoveOtherIfSome,
            MergeOp::MoveOtherIfSome,
            MergeOp::MoveOtherIfSome,
            MergeOp::MoveOtherIfSome,
            MergeOp::TakeNested,
            MergeOp::MoveOtherIfSome,
        ]
    );
    assert_eq!(frag.stmts[0].field, "verbose");
    assert_eq!(frag.stmts[6].field, "nested");
}

#[test]
fn patch_dispatch_per_kind() {
    let frag = patch_for_struct(&sample_fields(), &"other".to_string());
    let ops: Vec<MergeOp> = frag.stmts.iter().map(|s| s.op).collect();
    assert_eq!(
        ops,
        vec![
            MergeOp::MoveOtherIfSelfNone,
            MergeOp::SwapIfSelfEmpty,
            MergeOp::MoveOtherIfSelfNone,
            MergeOp::MoveOtherIfSelfNone,
            MergeOp::MoveOtherIfSelfNone,
            MergeOp::MoveOtherIfSelfNone,
            MergeOp::PatchNested,
            MergeOp::MoveOtherIfSelfNone,
        ]
    );
}

#[test]
fn take_for_dispatch_per_kind() {
    let frag = take_for_for_struct(&sample_fields(), &"other".to_string());
    let ops: Vec<MergeOp> = frag.stmts.iter().map(|s| s.op).collect();
    assert_eq!(
        ops,
        vec![
            MergeOp::UnwrapSelfIntoOther,
            MergeOp::SwapIfSelfNonEmpty,
            MergeOp::MoveSelfIntoOtherIfSome,
            MergeOp::MoveSelfIntoOtherIfSome,
            MergeOp::MoveSelfIntoOtherIfSome,
            MergeOp::UnwrapSelfIntoOther,
            MergeOp::TakeForNested,
            MergeOp::SubcommandUnsupported,
        ]
    );
}

#[test]
fn patch_for_dispatch_per_kind() {
    let frag = patch_for_for_struct(&sample_fields(), &"target".to_string());
    assert_eq!(frag.other, "target");
    let ops: Vec<MergeOp> = frag.stmts.iter().map(|s| s.op).collect();
    assert_eq!(
        ops,
        vec![
            MergeOp::EmitNothing,
            MergeOp::SwapIfOtherEmpty,
            MergeOp::MoveSelfIfOtherNone,
            MergeOp::MoveSelfIfOtherNone,
            MergeOp::MoveSelfIfOtherNone,
            MergeOp::EmitNothing,
            MergeOp::PatchForNested,
            MergeOp::SubcommandUnsupported,
        ]
    );
}

#[test]
fn is_empty_dispatch_omits_vectors() {
    let terms = is_empty_for_struct(&sample_fields());
    let ops: Vec<PredOp> = terms.iter().map(|t| t.op).collect();
    assert_eq!(
        ops,
        vec![
            PredOp::IsNone,
            PredOp::Omitted,
            PredOp::IsNone,
            PredOp::IsNone,
            PredOp::IsNone,
            PredOp::IsNone,
            PredOp::DelegateIsEmpty,
            PredOp::IsNone,
        ]
    );
    assert_eq!(terms[1].field, "args");
}

#[test]
fn is_complete_dispatch_omits_vectors() {
    let terms = is_complete_for_struct(&sample_fields());
    let ops: Vec<PredOp> = terms.iter().map(|t| t.op).collect();
    assert_eq!(
        ops,
        vec![
            PredOp::IsSome,
            PredOp::Omitted,
            PredOp::IsSome,
            PredOp::IsSome,
            PredOp::IsSome,
            PredOp::IsSome,
            PredOp::DelegateIsComplete,
            PredOp::MapOrIsComplete,
        ]
    );
}

#[test]
fn from_dispatch_wraps_everything_present() {
    let frag = from_for_struct(&sample_fields(), &"other".to_string());
    assert_eq!(frag.other, "other");
    let ops: Vec<InitOp> = frag.inits.iter().map(|t| t.op).collect();
    assert_eq!(
        ops,
        vec![
            InitOp::WrapSome,
            InitOp::Move,
            InitOp::Move,
            InitOp::Move,
            InitOp::Move,
            InitOp::WrapSome,
            InitOp::NestedInto,
            InitOp::SomeNestedInto,
        ]
    );
}

#[test]
fn try_from_dispatch_unwraps_under_guard() {
    let inits = try_from_for_struct(&sample_fields());
    let ops: Vec<InitOp> = inits.iter().map(|t| t.op).collect();
    assert_eq!(
        ops,
        vec![
            InitOp::Unwrap,
            InitOp::Move,
            InitOp::Move,
            InitOp::Move,
            InitOp::Move,
            InitOp::Unwrap,
            InitOp::NestedTryIntoUnwrap,
            InitOp::UnwrapThenTryInto,
        ]
    );
    assert_eq!(inits[7].field, "cmd");
}

#[test]
fn enum_generators_handle_only_unnamed_variants() {
    let variants = sample_variants();
    let complete = is_complete_for_enum(&variants);
    let take = take_for_enum(&variants);
    let from = from_for_enum(&variants);
    let try_from = try_from_for_enum(&variants);
    for arms in [&complete, &take, &from, &try_from] {
        assert_eq!(arms.len(), 3);
        assert_eq!(arms[0].complete_ident, "Command::Run");
        assert_eq!(arms[0].partial_ident, "ConfigOptCommand::Run");
        assert_eq!(arms[1].op, ArmOp::Unsupported);
        assert_eq!(arms[2].op, ArmOp::Unsupported);
    }
    assert_eq!(complete[0].op, ArmOp::IsCompleteInner);
    assert_eq!(take[0].op, ArmOp::TakeInner);
    assert_eq!(from[0].op, ArmOp::FromInner);
    assert_eq!(try_from[0].op, ArmOp::TryFromInner);
}

#[test]
fn empty_field_list_emits_nothing() {
    let none: Vec<ParsedField> = vec![];
    assert_eq!(take_for_struct(&none, &"other".to_string()).stmts.len(), 0);
    assert_eq!(is_complete_for_struct(&none).len(), 0);
    assert_eq!(try_from_for_struct(&none).len(), 0);
}
