//! Runtime semantics of the generated companion methods, over a model
//! record: a partial value is a sequence of fields, each either an
//! optional-style slot (present or absent) or a vector, and the merge and
//! conversion methods the generators emit act on such records exactly as
//! the spec functions below state. A `Value` field stands for the
//! boolean / plain classification, whose complete side holds the bare
//! value; an `Optional` field stands for the option-style classifications,
//! whose complete side holds the option itself; an `Items` field stands
//! for the vector classification. Payloads are abstracted to `u64`.

use vstd::prelude::*;

verus! {

/// One field of a partial record.
#[derive(Clone, PartialEq, Eq, Debug)]
pub enum PartialField {
    /// Boolean / plain kind: absent, or a present bare value.
    Value(Option<u64>),
    /// Option-style kind: the accumulated option itself.
    Optional(Option<u64>),
    /// Vector kind.
    Items(Vec<u64>),
}

/// One field of a complete record.
#[derive(Clone, PartialEq, Eq, Debug)]
pub enum CompleteField {
    Value(u64),
    Optional(Option<u64>),
    Items(Vec<u64>),
}

/// Mathematical shadow of `PartialField`.
pub enum PartialFieldV {
    Value(Option<u64>),
    Optional(Option<u64>),
    Items(Seq<u64>),
}

/// Mathematical shadow of `CompleteField`.
pub enum CompleteFieldV {
    Value(u64),
    Optional(Option<u64>),
    Items(Seq<u64>),
}

impl View for PartialField {
    type V = PartialFieldV;

    open spec fn view(&self) -> PartialFieldV {
        match self {
            PartialField::Value(o) => PartialFieldV::Value(*o),
            PartialField::Optional(o) => PartialFieldV::Optional(*o),
            PartialField::Items(v) => PartialFieldV::Items(v@),
        }
    }
}

impl View for CompleteField {
    type V = CompleteFieldV;

    open spec fn view(&self) -> CompleteFieldV {
        match self {
            CompleteField::Value(v) => CompleteFieldV::Value(*v),
            CompleteField::Optional(o) => CompleteFieldV::Optional(*o),
            CompleteField::Items(v) => CompleteFieldV::Items(v@),
        }
    }
}

/// A partial record: the generated companion value whose fields accumulate
/// data from several sources before finalization.
#[derive(Clone, PartialEq, Eq, Debug)]
pub struct PartialRecord {
    pub fields: Vec<PartialField>,
}

/// A complete record: the original configuration value.
#[derive(Clone, PartialEq, Eq, Debug)]
pub struct CompleteRecord {
    pub fields: Vec<CompleteField>,
}

impl View for PartialRecord {
    type V = Seq<PartialFieldV>;

    open spec fn view(&self) -> Seq<PartialFieldV> {
        self.fields@.map_values(|f: PartialField| f@)
    }
}

impl View for CompleteRecord {
    type V = Seq<CompleteFieldV>;

    open spec fn view(&self) -> Seq<CompleteFieldV> {
        self.fields@.map_values(|f: CompleteField| f@)
    }
}

/// `take` on one field pair: a present or non-empty `other` wins and is
/// drained; kinds that cannot pair in generated code are left alone.
pub open spec fn take_field(s: PartialFieldV, o: PartialFieldV) -> (PartialFieldV, PartialFieldV) {
    match (s, o) {
        (PartialFieldV::Value(_), PartialFieldV::Value(b)) => if b is Some {
            (PartialFieldV::Value(b), PartialFieldV::Value(None))
        } else {
            (s, o)
        },
        (PartialFieldV::Optional(_), PartialFieldV::Optional(b)) => if b is Some {
            (PartialFieldV::Optional(b), PartialFieldV::Optional(None))
        } else {
            (s, o)
        },
        (PartialFieldV::Items(_), PartialFieldV::Items(y)) => if y.len() > 0 {
            (o, s)
        } else {
            (s, o)
        },
        _ => (s, o),
    }
}

/// `patch` on one field pair: only an absent / empty `self` side is filled,
/// and the source side is drained when it is.
pub open spec fn patch_field(s: PartialFieldV, o: PartialFieldV) -> (PartialFieldV, PartialFieldV) {
    match (s, o) {
        (PartialFieldV::Value(a), PartialFieldV::Value(b)) => if a is None {
            (PartialFieldV::Value(b), PartialFieldV::Value(None))
        } else {
            (s, o)
        },
        (PartialFieldV::Optional(a), PartialFieldV::Optional(b)) => if a is None {
            (PartialFieldV::Optional(b), PartialFieldV::Optional(None))
        } else {
            (s, o)
        },
        (PartialFieldV::Items(x), PartialFieldV::Items(_)) => if x.len() == 0 {
            (o, s)
        } else {
            (s, o)
        },
        _ => (s, o),
    }
}

/// `take_for` on one (partial, complete) field pair: the partial side pushes
/// what it holds onto the complete target. A boolean / plain slot is drained
/// unconditionally, updating the target only when it held data.
pub open spec fn take_for_field(p: PartialFieldV, c: CompleteFieldV) -> (
    PartialFieldV,
    CompleteFieldV,
) {
    match (p, c) {
        (PartialFieldV::Value(a), CompleteFieldV::Value(v)) => (
            PartialFieldV::Value(None),
            if a is Some {
                CompleteFieldV::Value(a->0)
            } else {
                CompleteFieldV::Value(v)
            },
        ),
        (PartialFieldV::Optional(a), CompleteFieldV::Optional(_)) => if a is Some {
            (PartialFieldV::Optional(None), CompleteFieldV::Optional(a))
        } else {
            (p, c)
        },
        (PartialFieldV::Items(x), CompleteFieldV::Items(y)) => if x.len() > 0 {
            (PartialFieldV::Items(y), CompleteFieldV::Items(x))
        } else {
            (p, c)
        },
        _ => (p, c),
    }
}

/// `patch_for` on one (partial, complete) field pair: only gaps of the
/// complete target are filled; a boolean / plain target has no gap, so
/// nothing happens there.
pub open spec fn patch_for_field(p: PartialFieldV, c: CompleteFieldV) -> (
    PartialFieldV,
    CompleteFieldV,
) {
    match (p, c) {
        (PartialFieldV::Optional(a), CompleteFieldV::Optional(b)) => if b is None {
            (PartialFieldV::Optional(None), CompleteFieldV::Optional(a))
        } else {
            (p, c)
        },
        (PartialFieldV::Items(x), CompleteFieldV::Items(y)) => if y.len() == 0 {
            (PartialFieldV::Items(y), CompleteFieldV::Items(x))
        } else {
            (p, c)
        },
        _ => (p, c),
    }
}

/// Emptiness of one field: absence counts as empty; vector fields do not
/// participate (the generators' acknowledged gap).
pub open spec fn field_is_empty(f: PartialFieldV) -> bool {
    match f {
        PartialFieldV::Value(o) => o is None,
        PartialFieldV::Optional(o) => o is None,
        PartialFieldV::Items(_) => true,
    }
}

/// Completeness of one field: presence; vector fields do not participate.
pub open spec fn field_is_complete(f: PartialFieldV) -> bool {
    match f {
        PartialFieldV::Value(o) => o is Some,
        PartialFieldV::Optional(o) => o is Some,
        PartialFieldV::Items(_) => true,
    }
}

pub open spec fn rec_is_empty(s: Seq<PartialFieldV>) -> bool {
    forall|i: int| 0 <= i < s.len() ==> field_is_empty(#[trigger] s[i])
}

pub open spec fn rec_is_complete(s: Seq<PartialFieldV>) -> bool {
    forall|i: int| 0 <= i < s.len() ==> field_is_complete(#[trigger] s[i])
}

/// `from` on one field: every complete field is wrapped as present.
pub open spec fn from_field(c: CompleteFieldV) -> PartialFieldV {
    match c {
        CompleteFieldV::Value(v) => PartialFieldV::Value(Some(v)),
        CompleteFieldV::Optional(o) => PartialFieldV::Optional(o),
        CompleteFieldV::Items(s) => PartialFieldV::Items(s),
    }
}

/// `try_from` on one field, meaningful once completeness is proven: the
/// presence established by `field_is_complete` is unwrapped.
pub open spec fn to_complete_field(p: PartialFieldV) -> CompleteFieldV {
    match p {
        PartialFieldV::Value(o) => CompleteFieldV::Value(o->0),
        PartialFieldV::Optional(o) => CompleteFieldV::Optional(o),
        PartialFieldV::Items(s) => CompleteFieldV::Items(s),
    }
}

impl PartialRecord {
    pub fn new(fields: Vec<PartialField>) -> (r: PartialRecord)
        ensures
            r.fields == fields,
    {
        PartialRecord { fields }
    }

    /// Move data from `other` into `self`: a more specific source overrides
    /// a less specific one, and is drained of what it supplied.
    pub fn take(&mut self, other: &mut PartialRecord)
        requires
            old(self)@.len() == old(other)@.len(),
        ensures
            final(self)@.len() == old(self)@.len(),
            final(other)@.len() == old(other)@.len(),
            forall|i: int|
                0 <= i < final(self)@.len() ==> (#[trigger] final(self)@[i]) == take_field(
                    old(self)@[i],
                    old(other)@[i],
                ).0,
            forall|i: int|
                0 <= i < final(other)@.len() ==> (#[trigger] final(other)@[i]) == take_field(
                    old(self)@[i],
                    old(other)@[i],
                ).1,
    {
        let n = self.fields.len();
        let mut ns: Vec<PartialField> = Vec::new();
        let mut no: Vec<PartialField> = Vec::new();
        let mut i: usize = 0;
        while i < n
            invariant
                i <= n,
                n == old(self).fields@.len(),
                n == old(other).fields@.len(),
                self.fields@ == old(self).fields@.skip(i as int),
                other.fields@ == old(other).fields@.skip(i as int),
                ns@.len() == i,
                no@.len() == i,
                forall|j: int|
                    0 <= j < i ==> (#[trigger] ns@[j])@ == take_field(
                        old(self).fields@[j]@,
                        old(other).fields@[j]@,
                    ).0,
                forall|j: int|
                    0 <= j < i ==> (#[trigger] no@[j])@ == take_field(
                        old(self).fields@[j]@,
                        old(other).fields@[j]@,
                    ).1,
            decreases n - i,
        {
            let sf = self.fields.remove(0);
            let of = other.fields.remove(0);
            let (nsf, nof) = match (sf, of) {
                (PartialField::Value(a), PartialField::Value(b)) => if b.is_some() {
                    (PartialField::Value(b), PartialField::Value(None))
                } else {
                    (PartialField::Value(a), PartialField::Value(b))
                },
                (PartialField::Optional(a), PartialField::Optional(b)) => if b.is_some() {
                    (PartialField::Optional(b), PartialField::Optional(None))
                } else {
                    (PartialField::Optional(a), PartialField::Optional(b))
                },
                (PartialField::Items(x), PartialField::Items(y)) => if y.len() > 0 {
                    (PartialField::Items(y), PartialField::Items(x))
                } else {
                    (PartialField::Items(x), PartialField::Items(y))
                },
                (s, o) => (s, o),
            };
            ns.push(nsf);
            no.push(nof);
            i = i + 1;
        }
        self.fields = ns;
        other.fields = no;
    }

    /// Fill `self`'s gaps from `other`: `other` is the fallback, never the
    /// override, and is drained of what it supplied.
    pub fn patch(&mut self, other: &mut PartialRecord)
        requires
            old(self)@.len() == old(other)@.len(),
        ensures
            final(self)@.len() == old(self)@.len(),
            final(other)@.len() == old(other)@.len(),
            forall|i: int|
                0 <= i < final(self)@.len() ==> (#[trigger] final(self)@[i]) == patch_field(
                    old(self)@[i],
                    old(other)@[i],
                ).0,
            forall|i: int|
                0 <= i < final(other)@.len() ==> (#[trigger] final(other)@[i]) == patch_field(
                    old(self)@[i],
                    old(other)@[i],
                ).1,
    {
        let n = self.fields.len();
        let mut ns: Vec<PartialField> = Vec::new();
        let mut no: Vec<PartialField> = Vec::new();
        let mut i: usize = 0;
        while i < n
            invariant
                i <= n,
                n == old(self).fields@.len(),
                n == old(other).fields@.len(),
                self.fields@ == old(self).fields@.skip(i as int),
                other.fields@ == old(other).fields@.skip(i as int),
                ns@.len() == i,
                no@.len() == i,
                forall|j: int|
                    0 <= j < i ==> (#[trigger] ns@[j])@ == patch_field(
                        old(self).fields@[j]@,
                        old(other).fields@[j]@,
                    ).0,
                forall|j: int|
                    0 <= j < i ==> (#[trigger] no@[j])@ == patch_field(
                        old(self).fields@[j]@,
                        old(other).fields@[j]@,
                    ).1,
            decreases n - i,
        {
            let sf = self.fields.remove(0);
            let of = other.fields.remove(0);
            let (nsf, nof) = match (sf, of) {
                (PartialField::Value(a), PartialField::Value(b)) => if a.is_none() {
                    (PartialField::Value(b), PartialField::Value(None))
                } else {
                    (PartialField::Value(a), PartialField::Value(b))
                },
                (PartialField::Optional(a), PartialField::Optional(b)) => if a.is_none() {
                    (PartialField::Optional(b), PartialField::Optional(None))
                } else {
                    (PartialField::Optional(a), PartialField::Optional(b))
                },
                (PartialField::Items(x), PartialField::Items(y)) => if x.len() == 0 {
                    (PartialField::Items(y), PartialField::Items(x))
                } else {
                    (PartialField::Items(x), PartialField::Items(y))
                },
                (s, o) => (s, o),
            };
            ns.push(nsf);
            no.push(nof);
            i = i + 1;
        }
        self.fields = ns;
        other.fields = no;
    }

    /// Push `self`'s known values onto the complete target `other`, under
    /// the same precedence rules as `take`.
    pub fn take_for(&mut self, other: &mut CompleteRecord)
        requires
            old(self)@.len() == old(other)@.len(),
        ensures
            final(self)@.len() == old(self)@.len(),
            final(other)@.len() == old(other)@.len(),
            forall|i: int|
                0 <= i < final(self)@.len() ==> (#[trigger] final(self)@[i]) == take_for_field(
                    old(self)@[i],
                    old(other)@[i],
                ).0,
            forall|i: int|
                0 <= i < final(other)@.len() ==> (#[trigger] final(other)@[i]) == take_for_field(
                    old(self)@[i],
                    old(other)@[i],
                ).1,
    {
        let n = self.fields.len();
        let mut ns: Vec<PartialField> = Vec::new();
        let mut no: Vec<CompleteField> = Vec::new();
        let mut i: usize = 0;
        while i < n
            invariant
                i <= n,
                n == old(self).fields@.len(),
                n == old(other).fields@.len(),
                self.fields@ == old(self).fields@.skip(i as int),
                other.fields@ == old(other).fields@.skip(i as int),
                ns@.len() == i,
                no@.len() == i,
                forall|j: int|
                    0 <= j < i ==> (#[trigger] ns@[j])@ == take_for_field(
                        old(self).fields@[j]@,
                        old(other).fields@[j]@,
                    ).0,
                forall|j: int|
                    0 <= j < i ==> (#[trigger] no@[j])@ == take_for_field(
                        old(self).fields@[j]@,
                        old(other).fields@[j]@,
                    ).1,
            decreases n - i,
        {
            let sf = self.fields.remove(0);
            let of = other.fields.remove(0);
            let (nsf, nof) = match (sf, of) {
                (PartialField::Value(a), CompleteField::Value(v)) => (
                    PartialField::Value(None),
                    match a {
                        Some(value) => CompleteField::Value(value),
                        None => CompleteField::Value(v),
                    },
                ),
                (PartialField::Optional(a), CompleteField::Optional(b)) => if a.is_some() {
                    (PartialField::Optional(None), CompleteField::Optional(a))
                } else {
                    (PartialField::Optional(a), CompleteField::Optional(b))
                },
                (PartialField::Items(x), CompleteField::Items(y)) => if x.len() > 0 {
                    (PartialField::Items(y), CompleteField::Items(x))
                } else {
                    (PartialField::Items(x), CompleteField::Items(y))
                },
                (s, o) => (s, o),
            };
            ns.push(nsf);
            no.push(nof);
            i = i + 1;
        }
        self.fields = ns;
        other.fields = no;
    }

    /// Fill only the gaps of the complete target `other` from `self`.
    pub fn patch_for(&mut self, other: &mut CompleteRecord)
        requires
            old(self)@.len() == old(other)@.len(),
        ensures
            final(self)@.len() == old(self)@.len(),
            final(other)@.len() == old(other)@.len(),
            forall|i: int|
                0 <= i < final(self)@.len() ==> (#[trigger] final(self)@[i]) == patch_for_field(
                    old(self)@[i],
                    old(other)@[i],
                ).0,
            forall|i: int|
                0 <= i < final(other)@.len() ==> (#[trigger] final(other)@[i]) == patch_for_field(
                    old(self)@[i],
                    old(other)@[i],
                ).1,
    {
        let n = self.fields.len();
        let mut ns: Vec<PartialField> = Vec::new();
        let mut no: Vec<CompleteField> = Vec::new();
        let mut i: usize = 0;
        while i < n
            invariant
                i <= n,
                n == old(self).fields@.len(),
                n == old(other).fields@.len(),
                self.fields@ == old(self).fields@.skip(i as int),
                other.fields@ == old(other).fields@.skip(i as int),
                ns@.len() == i,
                no@.len() == i,
                forall|j: int|
                    0 <= j < i ==> (#[trigger] ns@[j])@ == patch_for_field(
                        old(self).fields@[j]@,
                        old(other).fields@[j]@,
                    ).0,
                forall|j: int|
                    0 <= j < i ==> (#[trigger] no@[j])@ == patch_for_field(
                        old(self).fields@[j]@,
                        old(other).fields@[j]@,
                    ).1,
            decreases n - i,
        {
            let sf = self.fields.remove(0);
            let of = other.fields.remove(0);
            let (nsf, nof) = match (sf, of) {
                (PartialField::Optional(a), CompleteField::Optional(b)) => if b.is_none() {
                    (PartialField::Optional(None), CompleteField::Optional(a))
                } else {
                    (PartialField::Optional(a), CompleteField::Optional(b))
                },
                (PartialField::Items(x), CompleteField::Items(y)) => if y.len() == 0 {
                    (PartialField::Items(y), CompleteField::Items(x))
                } else {
                    (PartialField::Items(x), CompleteField::Items(y))
                },
                (s, o) => (s, o),
            };
            ns.push(nsf);
            no.push(nof);
            i = i + 1;
        }
        self.fields = ns;
        other.fields = no;
    }

    /// An all-absent record is empty; vector fields are not consulted.
    pub fn is_empty(&self) -> (r: bool)
        ensures
            r == rec_is_empty(self@),
    {
        let mut i: usize = 0;
        while i < self.fields.len()
            invariant
                i <= self.fields@.len(),
                forall|j: int| 0 <= j < i ==> field_is_empty(#[trigger] self.fields@[j]@),
            decreases self.fields@.len() - i,
        {
            let here = match &self.fields[i] {
                PartialField::Value(o) => o.is_none(),
                PartialField::Optional(o) => o.is_none(),
                PartialField::Items(_) => true,
            };
            if !here {
                assert(!field_is_empty(self@[i as int]));
                return false;
            }
            i = i + 1;
        }
        true
    }

    /// A record is complete only when every non-vector field holds data.
    pub fn is_complete(&self) -> (r: bool)
        ensures
            r == rec_is_complete(self@),
    {
        let mut i: usize = 0;
        while i < self.fields.len()
            invariant
                i <= self.fields@.len(),
                forall|j: int| 0 <= j < i ==> field_is_complete(#[trigger] self.fields@[j]@),
            decreases self.fields@.len() - i,
        {
            let here = match &self.fields[i] {
                PartialField::Value(o) => o.is_some(),
                PartialField::Optional(o) => o.is_some(),
                PartialField::Items(_) => true,
            };
            if !here {
                assert(!field_is_complete(self@[i as int]));
                return false;
            }
            i = i + 1;
        }
        true
    }

    /// Unconditional construction of the partial value from the complete
    /// one: every field comes out present, so this conversion cannot fail.
    pub fn from(complete: CompleteRecord) -> (r: PartialRecord)
        ensures
            r@.len() == complete@.len(),
            forall|i: int|
                0 <= i < complete@.len() ==> (#[trigger] r@[i]) == from_field(complete@[i]),
    {
        let mut rest = complete.fields;
        let mut out: Vec<PartialField> = Vec::new();
        let ghost orig: Seq<CompleteField> = rest@;
        let n = rest.len();
        let mut i: usize = 0;
        while i < n
            invariant
                i <= n,
                n == orig.len(),
                rest@ == orig.skip(i as int),
                out@.len() == i,
                forall|j: int| 0 <= j < i ==> (#[trigger] out@[j])@ == from_field(orig[j]@),
            decreases n - i,
        {
            let cf = rest.remove(0);
            let pf = match cf {
                CompleteField::Value(v) => PartialField::Value(Some(v)),
                CompleteField::Optional(o) => PartialField::Optional(o),
                CompleteField::Items(v) => PartialField::Items(v),
            };
            out.push(pf);
            i = i + 1;
        }
        PartialRecord { fields: out }
    }

    /// The fallible reverse direction. When the record is complete, every
    /// field's presence may be unwrapped — completeness was just proven.
    /// When it is not, the original still-partial record comes back to the
    /// caller unchanged, with no data lost.
    pub fn try_from(partial: PartialRecord) -> (r: Result<CompleteRecord, PartialRecord>)
        ensures
            rec_is_complete(partial@) ==> r is Ok && r->Ok_0@.len() == partial@.len() && forall|
                i: int,
            |
                0 <= i < partial@.len() ==> (#[trigger] r->Ok_0@[i]) == to_complete_field(
                    partial@[i],
                ),
            !rec_is_complete(partial@) ==> r is Err && r->Err_0 == partial,
    {
        if !partial.is_complete() {
            return Err(partial);
        }
        let mut rest = partial.fields;
        let mut out: Vec<CompleteField> = Vec::new();
        let ghost orig: Seq<PartialField> = rest@;
        let n = rest.len();
        let mut i: usize = 0;
        while i < n
            invariant
                i <= n,
                n == orig.len(),
                rest@ == orig.skip(i as int),
                out@.len() == i,
                rec_is_complete(orig.map_values(|f: PartialField| f@)),
                forall|j: int| 0 <= j < i ==> (#[trigger] out@[j])@ == to_complete_field(orig[j]@),
            decreases n - i,
        {
            let pf = rest.remove(0);
            assert(field_is_complete(orig.map_values(|f: PartialField| f@)[i as int]));
            let cf = match pf {
                PartialField::Value(o) => match o {
                    Some(v) => CompleteField::Value(v),
                    None => unreached(),
                },
                PartialField::Optional(o) => CompleteField::Optional(o),
                PartialField::Items(v) => CompleteField::Items(v),
            };
            out.push(cf);
            i = i + 1;
        }
        Ok(CompleteRecord { fields: out })
    }
}

impl CompleteRecord {
    pub fn new(fields: Vec<CompleteField>) -> (r: CompleteRecord)
        ensures
            r.fields == fields,
    {
        CompleteRecord { fields }
    }
}

} // verus!
