//! Laws relating the merge and conversion semantics across calls: what
//! holds of every record, not of one scenario.

use vstd::prelude::*;
use crate::partial::{
    field_is_complete, from_field, patch_field, rec_is_complete, take_field, to_complete_field,
    CompleteFieldV, PartialFieldV,
};

verus! {

/// A record is saturated when it is complete and, beyond that, every
/// vector field actually holds items — vector fields being excluded from
/// completeness, completeness alone does not pin them down.
pub open spec fn rec_is_saturated(s: Seq<PartialFieldV>) -> bool {
    &&& rec_is_complete(s)
    &&& forall|i: int|
        0 <= i < s.len() ==> ((#[trigger] s[i]) matches PartialFieldV::Items(xs) ==> xs.len() > 0)
}

/// Law: patching an already-saturated destination never alters it, nor its
/// source — `patch` only fills gaps, and a saturated record has none.
/// Completeness alone is not enough: a complete record with an empty
/// vector field would still swap that vector in, which is why saturation
/// is demanded.
pub proof fn lemma_patch_preserves_saturated(s: Seq<PartialFieldV>, o: Seq<PartialFieldV>)
    requires
        rec_is_saturated(s),
    ensures
        forall|i: int|
            0 <= i < s.len() && i < o.len() ==> #[trigger] patch_field(s[i], o[i]) == (s[i], o[i]),
{
    assert forall|i: int|
        0 <= i < s.len() && i < o.len() implies #[trigger] patch_field(s[i], o[i]) == (
        s[i],
        o[i],
    ) by {
        assert(field_is_complete(s[i]));
    }
}

/// Law: a `take` leaves the destination saturated whenever it was saturated
/// before — so after `take` the patch law above applies, and the
/// take-then-patch round keeps a saturated destination exactly as the
/// `take` left it.
pub proof fn lemma_take_preserves_saturated(s: Seq<PartialFieldV>, o: Seq<PartialFieldV>)
    requires
        rec_is_saturated(s),
        s.len() == o.len(),
    ensures
        rec_is_saturated(Seq::new(s.len(), |i: int| take_field(s[i], o[i]).0)),
{
    let t = Seq::new(s.len(), |i: int| take_field(s[i], o[i]).0);
    assert forall|i: int| 0 <= i < t.len() implies field_is_complete(#[trigger] t[i]) by {
        assert(field_is_complete(s[i]));
    }
    assert forall|i: int|
        0 <= i < t.len() implies ((#[trigger] t[i]) matches PartialFieldV::Items(xs) ==> xs.len()
            > 0) by {
        assert(s[i] matches PartialFieldV::Items(xs) ==> xs.len() > 0);
    }
}

/// Law: `take` then `patch` with roles reversed is idempotent on a
/// saturated value — after a saturated destination takes from a source,
/// patching the destination, from that source or any other, alters
/// neither operand of the patch.
pub proof fn lemma_take_then_patch_idempotent(
    s: Seq<PartialFieldV>,
    o: Seq<PartialFieldV>,
    fallback: Seq<PartialFieldV>,
)
    requires
        rec_is_saturated(s),
        s.len() == o.len(),
    ensures
        forall|i: int|
            0 <= i < s.len() && i < fallback.len() ==> #[trigger] patch_field(
                take_field(s[i], o[i]).0,
                fallback[i],
            ) == (take_field(s[i], o[i]).0, fallback[i]),
{
    lemma_take_preserves_saturated(s, o);
    let taken = Seq::new(s.len(), |j: int| take_field(s[j], o[j]).0);
    lemma_patch_preserves_saturated(taken, fallback);
    assert forall|i: int|
        0 <= i < s.len() && i < fallback.len() implies #[trigger] patch_field(
        take_field(s[i], o[i]).0,
        fallback[i],
    ) == (take_field(s[i], o[i]).0, fallback[i]) by {
        assert(taken[i] == take_field(s[i], o[i]).0);
        assert(patch_field(taken[i], fallback[i]) == (taken[i], fallback[i]));
    }
}

/// Law: `from` of a complete record is itself complete, and `try_from` of
/// that partial record gives every original field back — the two
/// conversions round-trip. The one exception is an option-kind field that
/// the complete record holds as absent: `from` keeps it absent, so the
/// partial record fails the completeness test and the round trip stops
/// there; such fields are excluded here.
pub proof fn lemma_from_then_try_from_round_trips(c: Seq<CompleteFieldV>)
    requires
        forall|i: int|
            0 <= i < c.len() ==> ((#[trigger] c[i]) matches CompleteFieldV::Optional(o) ==> o
                is Some),
    ensures
        rec_is_complete(c.map_values(|f: CompleteFieldV| from_field(f))),
        forall|i: int|
            0 <= i < c.len() ==> to_complete_field(from_field(#[trigger] c[i])) == c[i],
{
    let p = c.map_values(|f: CompleteFieldV| from_field(f));
    assert forall|i: int| 0 <= i < p.len() implies field_is_complete(#[trigger] p[i]) by {
        assert(p[i] == from_field(c[i]));
    }
}

} // verus!
