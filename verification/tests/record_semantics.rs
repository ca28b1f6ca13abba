use configopt_core::choice::{CompleteChoice, PartialChoice};
use configopt_core::partial::{CompleteField, CompleteRecord, PartialField, PartialRecord};

fn partial(fields: Vec<PartialField>) -> PartialRecord {
    PartialRecord::new(fields)
}

fn complete(fields: Vec<CompleteField>) -> CompleteRecord {
    CompleteRecord::new(fields)
}

#[test]
fn take_moves_present_values_and_drains_source() {
    let mut dest = partial(vec![
        PartialField::Value(Some(1)),
        PartialField::Optional(None),
    ]);
    let mut src = partial(vec![
        PartialField::Value(Some(7)),
        PartialField::Optional(Some(9)),
    ]);
    dest.take(&mut src);
    assert_eq!(
        dest.fields,
        vec![PartialField::Value(Some(7)), PartialField::Optional(Some(9))]
    );
    assert_eq!(
        src.fields,
        vec![PartialField::Value(None), PartialField::Optional(None)]
    );
}

#[test]
fn take_leaves_absent_source_fields_alone() {
    let mut dest = partial(vec![PartialField::Value(Some(1))]);
    let mut src = partial(vec![PartialField::Value(None)]);
    dest.take(&mut src);
    assert_eq!(dest.fields, vec![PartialField::Value(Some(1))]);
    assert_eq!(src.fields, vec![PartialField::Value(None)]);
}

#[test]
fn take_swaps_nonempty_vector_in() {
    // self=[], other=[1,2]  ->  self=[1,2], other=[]
    let mut dest = partial(vec![PartialField::Items(vec![])]);
    let mut src = partial(vec![PartialField::Items(vec![1, 2])]);
    dest.take(&mut src);
    assert_eq!(dest.fields, vec![PartialField::Items(vec![1, 2])]);
    assert_eq!(src.fields, vec![PartialField::Items(vec![])]);
}

#[test]
fn take_never_overwrites_with_empty_vector() {
    let mut dest = partial(vec![PartialField::Items(vec![5])]);
    let mut src = partial(vec![PartialField::Items(vec![])]);
    dest.take(&mut src);
    assert_eq!(dest.fields, vec![PartialField::Items(vec![5])]);
    assert_eq!(src.fields, vec![PartialField::Items(vec![])]);
}

#[test]
fn patch_fills_only_gaps() {
    let mut dest = partial(vec![
        PartialField::Value(Some(1)),
        PartialField::Optional(None),
    ]);
    let mut src = partial(vec![
        PartialField::Value(Some(7)),
        PartialField::Optional(Some(9)),
    ]);
    dest.patch(&mut src);
    assert_eq!(
        dest.fields,
        vec![PartialField::Value(Some(1)), PartialField::Optional(Some(9))]
    );
    // the supplied field is drained; the ignored one is kept
    assert_eq!(
        src.fields,
        vec![PartialField::Value(Some(7)), PartialField::Optional(None)]
    );
}

#[test]
fn patch_keeps_nonempty_vector_regardless_of_source() {
    // self=[1], other=[2,3]  ->  both unchanged
    let mut dest = partial(vec![PartialField::Items(vec![1])]);
    let mut src = partial(vec![PartialField::Items(vec![2, 3])]);
    dest.patch(&mut src);
    assert_eq!(dest.fields, vec![PartialField::Items(vec![1])]);
    assert_eq!(src.fields, vec![PartialField::Items(vec![2, 3])]);
}

#[test]
fn patch_on_saturated_destination_changes_nothing() {
    let saturated = vec![
        PartialField::Value(Some(1)),
        PartialField::Optional(Some(2)),
        PartialField::Items(vec![3]),
    ];
    let source = vec![
        PartialField::Value(Some(10)),
        PartialField::Optional(Some(20)),
        PartialField::Items(vec![30]),
    ];
    let mut dest = partial(saturated.clone());
    let mut src = partial(source.clone());
    dest.patch(&mut src);
    assert_eq!(dest.fields, saturated);
    assert_eq!(src.fields, source);
}

#[test]
fn take_then_patch_reversed_is_idempotent_on_saturated() {
    let mut dest = partial(vec![
        PartialField::Value(Some(1)),
        PartialField::Items(vec![9]),
    ]);
    let mut src = partial(vec![
        PartialField::Value(Some(4)),
        PartialField::Items(vec![8]),
    ]);
    dest.take(&mut src);
    let after_take = dest.fields.clone();
    // roles reversed: dest, now saturated, patches from what is left of src
    dest.patch(&mut src);
    assert_eq!(dest.fields, after_take);
}

#[test]
fn take_for_drains_plain_slots_unconditionally() {
    let mut part = partial(vec![
        PartialField::Value(Some(7)),
        PartialField::Value(None),
    ]);
    let mut target = complete(vec![CompleteField::Value(1), CompleteField::Value(2)]);
    part.take_for(&mut target);
    // the held value lands in the target; the empty slot leaves it alone,
    // and both slots end drained
    assert_eq!(
        target.fields,
        vec![CompleteField::Value(7), CompleteField::Value(2)]
    );
    assert_eq!(
        part.fields,
        vec![PartialField::Value(None), PartialField::Value(None)]
    );
}

#[test]
fn take_for_pushes_option_and_vector_values() {
    let mut part = partial(vec![
        PartialField::Optional(Some(5)),
        PartialField::Items(vec![6]),
    ]);
    let mut target = complete(vec![
        CompleteField::Optional(Some(1)),
        CompleteField::Items(vec![2, 3]),
    ]);
    part.take_for(&mut target);
    assert_eq!(
        target.fields,
        vec![CompleteField::Optional(Some(5)), CompleteField::Items(vec![6])]
    );
    assert_eq!(
        part.fields,
        vec![PartialField::Optional(None), PartialField::Items(vec![2, 3])]
    );
}

#[test]
fn patch_for_fills_only_target_gaps() {
    let mut part = partial(vec![
        PartialField::Value(Some(7)),
        PartialField::Optional(Some(8)),
        PartialField::Optional(Some(9)),
        PartialField::Items(vec![4]),
    ]);
    let mut target = complete(vec![
        CompleteField::Value(1),
        CompleteField::Optional(None),
        CompleteField::Optional(Some(3)),
        CompleteField::Items(vec![]),
    ]);
    part.patch_for(&mut target);
    assert_eq!(
        target.fields,
        vec![
            // a plain target field has no gap: nothing happens
            CompleteField::Value(1),
            CompleteField::Optional(Some(8)),
            CompleteField::Optional(Some(3)),
            CompleteField::Items(vec![4]),
        ]
    );
    assert_eq!(
        part.fields,
        vec![
            PartialField::Value(Some(7)),
            PartialField::Optional(None),
            PartialField::Optional(Some(9)),
            PartialField::Items(vec![]),
        ]
    );
}

#[test]
fn emptiness_ignores_vectors() {
    let all_absent = partial(vec![
        PartialField::Value(None),
        PartialField::Optional(None),
        PartialField::Items(vec![1, 2, 3]),
    ]);
    assert!(all_absent.is_empty());
    let one_present = partial(vec![PartialField::Value(Some(1)), PartialField::Optional(None)]);
    assert!(!one_present.is_empty());
}

#[test]
fn completeness_requires_every_nonvector_field() {
    let done = partial(vec![
        PartialField::Value(Some(1)),
        PartialField::Optional(Some(2)),
        PartialField::Items(vec![]),
    ]);
    assert!(done.is_complete());
    let missing = partial(vec![
        PartialField::Value(Some(1)),
        PartialField::Optional(None),
    ]);
    assert!(!missing.is_complete());
    let nothing = partial(vec![]);
    assert!(nothing.is_complete());
    assert!(nothing.is_empty());
}

#[test]
fn from_wraps_every_field_present() {
    let orig = complete(vec![
        CompleteField::Value(1),
        CompleteField::Optional(Some(2)),
        CompleteField::Items(vec![3, 4]),
    ]);
    let part = PartialRecord::from(orig);
    assert_eq!(
        part.fields,
        vec![
            PartialField::Value(Some(1)),
            PartialField::Optional(Some(2)),
            PartialField::Items(vec![3, 4]),
        ]
    );
    assert!(part.is_complete());
}

#[test]
fn try_from_succeeds_on_complete_records() {
    let part = partial(vec![
        PartialField::Value(Some(1)),
        PartialField::Optional(Some(2)),
        PartialField::Items(vec![3]),
    ]);
    let got = PartialRecord::try_from(part).expect("complete record converts");
    assert_eq!(
        got.fields,
        vec![
            CompleteField::Value(1),
            CompleteField::Optional(Some(2)),
            CompleteField::Items(vec![3]),
        ]
    );
}

#[test]
fn try_from_returns_incomplete_record_unchanged() {
    let fields = vec![
        PartialField::Value(None),
        PartialField::Optional(Some(2)),
        PartialField::Items(vec![3]),
    ];
    let part = partial(fields.clone());
    match PartialRecord::try_from(part) {
        Ok(_) => panic!("an incomplete record must not convert"),
        Err(back) => assert_eq!(back.fields, fields),
    }
}

#[test]
fn from_then_try_from_round_trips() {
    let orig = complete(vec![
        CompleteField::Value(1),
        CompleteField::Optional(Some(2)),
        CompleteField::Items(vec![3, 4]),
    ]);
    let part = PartialRecord::from(orig.clone());
    let back = PartialRecord::try_from(part).expect("round trip");
    assert_eq!(back, orig);
}

#[test]
fn round_trip_stops_at_absent_option_field() {
    // the one excluded shape: an option-kind field the complete value holds
    // as absent stays absent in the partial value, which then fails the
    // completeness check
    let orig = complete(vec![CompleteField::Optional(None)]);
    let part = PartialRecord::from(orig);
    assert!(!part.is_complete());
    assert!(PartialRecord::try_from(part).is_err());
}

#[test]
fn choice_take_fires_only_on_matching_variants() {
    let mut dest = PartialChoice {
        index: 0,
        inner: partial(vec![PartialField::Value(None)]),
    };
    let mut src = PartialChoice {
        index: 0,
        inner: partial(vec![PartialField::Value(Some(5))]),
    };
    dest.take(&mut src);
    assert_eq!(dest.inner.fields, vec![PartialField::Value(Some(5))]);
    assert_eq!(src.inner.fields, vec![PartialField::Value(None)]);

    let mut dest = PartialChoice {
        index: 0,
        inner: partial(vec![PartialField::Value(None)]),
    };
    let mut src = PartialChoice {
        index: 1,
        inner: partial(vec![PartialField::Value(Some(5))]),
    };
    dest.take(&mut src);
    // mismatched variant indices: a no-op on both operands
    assert_eq!(dest.inner.fields, vec![PartialField::Value(None)]);
    assert_eq!(src.inner.fields, vec![PartialField::Value(Some(5))]);
}

#[test]
fn choice_conversions_round_trip() {
    let orig = CompleteChoice {
        index: 2,
        inner: complete(vec![CompleteField::Value(1), CompleteField::Items(vec![2])]),
    };
    let part = PartialChoice::from(orig.clone());
    assert_eq!(part.index, 2);
    assert!(part.is_complete());
    let back = CompleteChoice::try_from(part);
    assert_eq!(back, orig);
}
