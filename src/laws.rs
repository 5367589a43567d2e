use vstd::prelude::*;
use crate::runtime::{
    BuiltView, SlotView, built_value, fresh_slot, fresh_slots, is_first_missing, is_missing,
    push_all, push_slot, set_slot, slots_wf,
};
use crate::attr::{
    attr_meaning, attrs_meaning, each_value, lemma_error_persists, tag_matches,
};
use crate::diagnostic::{Diagnostic, DiagnosticKind};
use crate::classify::{option_inner, vec_inner};
use crate::schema::{AttrEntry, FieldDef, RecordDef};
use crate::synth::{
    ClassifiedField, FieldRole, classified_as, field_error, fields_error, lemma_fields_error_persists,
    missing_text, record_error, record_fields, role_of,
};

verus! {

/// A fresh builder's slots match the roles: accumulators start as an empty
/// sequence, every other slot starts unset.
pub proof fn law_fresh_slots<V>(roles: Seq<FieldRole>)
    ensures
        slots_wf(roles, fresh_slots::<V>(roles)),
        forall|i: int|
            0 <= i < roles.len() ==> #[trigger] fresh_slots::<V>(roles)[i] == fresh_slot::<V>(
                roles[i],
            ),
{
}

/// Building a fresh builder fails exactly when some field is required, and the
/// field it names is the first required field in declared order.
pub proof fn law_fresh_build<V>(roles: Seq<FieldRole>)
    ensures
        forall|i: int|
            #[trigger] is_first_missing(roles, fresh_slots::<V>(roles), i) <==> {
                &&& 0 <= i < roles.len()
                &&& roles[i] == FieldRole::Required
                &&& forall|j: int| 0 <= j < i ==> roles[j] != FieldRole::Required
            },
        (forall|i: int| 0 <= i < roles.len() ==> !is_missing(roles, fresh_slots::<V>(roles), i))
            <==> (forall|i: int| 0 <= i < roles.len() ==> roles[i] != FieldRole::Required),
{
    let s = fresh_slots::<V>(roles);
    assert forall|i: int| 0 <= i < roles.len() implies (is_missing(roles, s, i) <==> roles[i]
        == FieldRole::Required) by {
        assert(s[i] == fresh_slot::<V>(roles[i]));
    }
}

/// After the plain setter of a required or optional field stores `v`, the slots
/// still match the roles, no other slot changed, the field is not missing, and
/// it builds as exactly `v` (wrapped in `Some` for an optional field).
pub proof fn law_set_then_build<V>(roles: Seq<FieldRole>, slots: Seq<SlotView<V>>, i: int, v: V)
    requires
        slots_wf(roles, slots),
        0 <= i < roles.len(),
        roles[i] != FieldRole::Accumulator,
    ensures
        slots_wf(roles, set_slot(slots, i, v)),
        forall|j: int| 0 <= j < slots.len() && j != i ==> #[trigger] set_slot(slots, i, v)[j] == slots[j],
        !is_missing(roles, set_slot(slots, i, v), i),
        built_value(roles[i], set_slot(slots, i, v)[i]) == if roles[i] == FieldRole::Required {
            BuiltView::Value(v)
        } else {
            BuiltView::Maybe(Some(v))
        },
{
}

/// An accumulator field never counts as missing, whatever was done before.
pub proof fn law_accumulator_never_missing<V>(roles: Seq<FieldRole>, slots: Seq<SlotView<V>>, i: int)
    requires
        slots_wf(roles, slots),
        0 <= i < roles.len(),
        roles[i] == FieldRole::Accumulator,
    ensures
        !is_missing(roles, slots, i),
{
}

/// Calling the element setter of an accumulator with `vs[0]`, ..., `vs[n-1]`
/// in turn, starting from its empty slot, leaves exactly `vs` in the slot, in
/// call order, and the field builds as that sequence; no other slot changes.
pub proof fn law_accumulate<V>(roles: Seq<FieldRole>, slots: Seq<SlotView<V>>, i: int, vs: Seq<V>)
    requires
        slots_wf(roles, slots),
        0 <= i < roles.len(),
        roles[i] == FieldRole::Accumulator,
        slots[i] == SlotView::<V>::Many(Seq::empty()),
    ensures
        slots_wf(roles, push_all(slots, i, vs)),
        push_all(slots, i, vs).len() == slots.len(),
        push_all(slots, i, vs)[i] == SlotView::Many(vs),
        forall|j: int| 0 <= j < slots.len() && j != i ==> #[trigger] push_all(slots, i, vs)[j] == slots[j],
        !is_missing(roles, push_all(slots, i, vs), i),
        built_value(roles[i], push_all(slots, i, vs)[i]) == BuiltView::Sequence(vs),
    decreases vs.len(),
{
    if vs.len() > 0 {
        law_accumulate(roles, slots, i, vs.drop_last());
        let prev = push_all(slots, i, vs.drop_last());
        assert(vs.drop_last().push(vs.last()) == vs);
        assert(push_slot(prev, i, vs.last())[i] == SlotView::Many(vs));
    } else {
        assert(vs =~= Seq::empty());
    }
}

/// An optional field never counts as missing; a fresh builder leaves it unset,
/// setters of other fields leave it as it is, and while unset it builds as `None`.
pub proof fn law_optional_unset<V>(roles: Seq<FieldRole>, slots: Seq<SlotView<V>>, i: int)
    requires
        slots_wf(roles, slots),
        0 <= i < roles.len(),
        roles[i] == FieldRole::Optional,
    ensures
        !is_missing(roles, slots, i),
        fresh_slots::<V>(roles)[i] is Unset,
        forall|j: int, v: V|
            0 <= j < slots.len() && j != i ==> (#[trigger] set_slot(slots, j, v))[i] == slots[i],
        forall|j: int, v: V|
            0 <= j < slots.len() && j != i ==> (#[trigger] push_slot(slots, j, v))[i] == slots[i],
        slots[i] is Unset ==> built_value(roles[i], slots[i]) == BuiltView::<V>::Maybe(None),
{
}

/// A field declared as `Option<T>` is never required, whatever its attributes:
/// if it classifies at all, it is optional.
pub proof fn law_optional_type_never_required(c: ClassifiedField, f: FieldDef)
    requires
        classified_as(c, f),
        option_inner(f.ty) is Some,
    ensures
        role_of(c.kind) == FieldRole::Optional,
{
    if let Ok(Some(_)) = attrs_meaning(f.attrs@) {
        assert(vec_inner(f.ty) is Some);
        reveal_strlit("Option");
        reveal_strlit("Vec");
        assert("Option"@.len() != "Vec"@.len());
    }
}

/// `build` never reports an accumulator field as missing, whatever setters were
/// called: the field it names is another one, and when the fields' names are
/// distinct its message is not the one that would name the accumulator.
pub proof fn law_accumulator_not_reported<V>(
    roles: Seq<FieldRole>,
    names: Seq<Seq<char>>,
    slots: Seq<SlotView<V>>,
    i: int,
    j: int,
)
    requires
        slots_wf(roles, slots),
        names.len() == roles.len(),
        forall|a: int, b: int|
            0 <= a < names.len() && 0 <= b < names.len() && a != b ==> names[a] != names[b],
        is_first_missing(roles, slots, i),
        0 <= j < roles.len(),
        roles[j] == FieldRole::Accumulator,
    ensures
        i != j,
        missing_text(names[i]) != missing_text(names[j]),
{
    assert(i != j);
    if missing_text(names[i]) == missing_text(names[j]) {
        let x = names[i];
        let y = names[j];
        assert((x + " must be set"@).len() == (y + " must be set"@).len());
        assert(x.len() == y.len());
        assert((x + " must be set"@).subrange(0, x.len() as int) == x);
        assert((y + " must be set"@).subrange(0, y.len() as int) == y);
        assert(x == y);
    }
}

/// A malformed `builder` attribute is never given a default meaning: the
/// record's definition raises a diagnostic, and when nothing before that entry
/// (in earlier fields, or earlier on the same field) is wrong, it is exactly the
/// malformed-attribute diagnostic at that entry.
pub proof fn law_malformed_attribute_rejected(def: RecordDef, i: int, k: int)
    requires
        0 <= i < record_fields(def).len(),
        0 <= k < record_fields(def)[i].attrs@.len(),
        tag_matches(record_fields(def)[i].attrs@[k].path@),
        each_value(record_fields(def)[i].attrs@[k].tokens@) is None,
    ensures
        record_error(def) is Some,
        fields_error(record_fields(def).subrange(0, i)) is None && attrs_meaning(
            record_fields(def)[i].attrs@.subrange(0, k),
        ) is Ok ==> record_error(def) == Some(
            Diagnostic {
                span: record_fields(def)[i].attrs@[k].span,
                kind: DiagnosticKind::MalformedAttribute,
            },
        ),
{
    let fs = record_fields(def);
    let attrs = fs[i].attrs@;
    assert(def.body is Named);
    lemma_first_attr_error(attrs, k);
    assert(field_error(fs[i]) is Some);
    lemma_first_field_error(fs, i);
    if attrs_meaning(attrs.subrange(0, k)) is Ok {
        assert(attrs.subrange(0, k + 1).drop_last() == attrs.subrange(0, k));
        lemma_error_persists(attrs, k + 1);
    }
    if fields_error(fs.subrange(0, i)) is None {
        assert(fs.subrange(0, i + 1).drop_last() == fs.subrange(0, i));
        lemma_fields_error_persists(fs, i + 1);
    }
}

/// Some entry being in error puts the whole list in error.
proof fn lemma_first_attr_error(attrs: Seq<AttrEntry>, k: int)
    requires
        0 <= k < attrs.len(),
        attr_meaning(attrs[k]) is Err,
    ensures
        attrs_meaning(attrs) is Err,
    decreases attrs.len(),
{
    if k < attrs.len() - 1 {
        lemma_first_attr_error(attrs.drop_last(), k);
    }
}

/// Some field raising a diagnostic makes the whole list raise one.
proof fn lemma_first_field_error(fs: Seq<FieldDef>, i: int)
    requires
        0 <= i < fs.len(),
        field_error(fs[i]) is Some,
    ensures
        fields_error(fs) is Some,
    decreases fs.len(),
{
    if i < fs.len() - 1 {
        lemma_first_field_error(fs.drop_last(), i);
    }
}

} // verus!
