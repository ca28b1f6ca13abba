//! Runtime semantics of the generated enum methods, over a model choice: a
//! partial enum value is an active variant index together with the inner
//! partial record that the variant wraps (the unnamed-inner shape, the one
//! the generators fully handle).

use vstd::prelude::*;
use crate::partial::{
    from_field, rec_is_complete, to_complete_field, take_field, CompleteRecord, PartialRecord,
};

verus! {

/// A partial enum value: which variant is active, and the partial record
/// the variant wraps.
#[derive(Clone, PartialEq, Eq, Debug)]
pub struct PartialChoice {
    pub index: usize,
    pub inner: PartialRecord,
}

/// A complete enum value.
#[derive(Clone, PartialEq, Eq, Debug)]
pub struct CompleteChoice {
    pub index: usize,
    pub inner: CompleteRecord,
}

impl PartialChoice {
    /// `take` between two enum values fires only when both operands' active
    /// variant indices match, and then recurses into the wrapped records; a
    /// mismatched-variant pair is left entirely alone, as the generated
    /// match has no arm for it.
    pub fn take(&mut self, other: &mut PartialChoice)
        requires
            old(self).index == old(other).index ==> old(self).inner@.len() == old(other).inner@.len(),
        ensures
            final(self).index == old(self).index,
            final(other).index == old(other).index,
            old(self).index != old(other).index ==> final(self).inner@ == old(self).inner@
                && final(other).inner@ == old(other).inner@,
            old(self).index == old(other).index ==> final(self).inner@.len() == old(self).inner@.len()
                && final(other).inner@.len() == old(other).inner@.len() && (forall|i: int|
                0 <= i < old(self).inner@.len() ==> (#[trigger] final(self).inner@[i]) == take_field(
                    old(self).inner@[i],
                    old(other).inner@[i],
                ).0 && final(other).inner@[i] == take_field(
                    old(self).inner@[i],
                    old(other).inner@[i],
                ).1),
    {
        if self.index == other.index {
            self.inner.take(&mut other.inner);
        }
    }

    /// Completeness of an enum value: the wrapped record's own completeness,
    /// whichever variant is active.
    pub fn is_complete(&self) -> (r: bool)
        ensures
            r == rec_is_complete(self.inner@),
    {
        self.inner.is_complete()
    }

    /// Unconditional conversion of a complete enum value into its partial
    /// companion: same active variant, inner record wrapped as present.
    pub fn from(complete: CompleteChoice) -> (r: PartialChoice)
        ensures
            r.index == complete.index,
            r.inner@.len() == complete.inner@.len(),
            forall|i: int|
                0 <= i < complete.inner@.len() ==> (#[trigger] r.inner@[i]) == from_field(
                    complete.inner@[i],
                ),
    {
        PartialChoice { index: complete.index, inner: PartialRecord::from(complete.inner) }
    }
}

impl CompleteChoice {
    /// The reverse direction, unwrapped: the generated arm converts the
    /// wrapped record without a fallback because completeness was proven
    /// upstream, so completeness is demanded here.
    pub fn try_from(partial: PartialChoice) -> (r: CompleteChoice)
        requires
            rec_is_complete(partial.inner@),
        ensures
            r.index == partial.index,
            r.inner@.len() == partial.inner@.len(),
            forall|i: int|
                0 <= i < partial.inner@.len() ==> (#[trigger] r.inner@[i]) == to_complete_field(
                    partial.inner@[i],
                ),
    {
        let index = partial.index;
        match PartialRecord::try_from(partial.inner) {
            Ok(inner) => CompleteChoice { index, inner },
            Err(_) => unreached(),
        }
    }
}

} // verus!
