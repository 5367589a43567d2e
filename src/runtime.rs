use vstd::prelude::*;
use crate::synth::{BuilderPlan, ClassifiedField, FieldKind, FieldRole, missing_text, role_of};

verus! {

/// The content of one builder slot.
#[derive(Debug)]
pub enum Slot<V> {
    Unset,
    One(V),
    Many(Vec<V>),
}

/// A slot as a mathematical value.
pub ghost enum SlotView<V> {
    Unset,
    One(V),
    Many(Seq<V>),
}

impl<V> View for Slot<V> {
    type V = SlotView<V>;

    open spec fn view(&self) -> SlotView<V> {
        match self {
            Slot::Unset => SlotView::Unset,
            Slot::One(v) => SlotView::One(*v),
            Slot::Many(vs) => SlotView::Many(vs@),
        }
    }
}

/// The value that `build` produces for one field.
#[derive(Debug)]
pub enum Built<V> {
    /// A required field's value.
    Value(V),
    /// An optional field's value, `None` when never set.
    Maybe(Option<V>),
    /// An accumulator field's elements, in the order they were added.
    Sequence(Vec<V>),
}

pub ghost enum BuiltView<V> {
    Value(V),
    Maybe(Option<V>),
    Sequence(Seq<V>),
}

impl<V> View for Built<V> {
    type V = BuiltView<V>;

    open spec fn view(&self) -> BuiltView<V> {
        match self {
            Built::Value(v) => BuiltView::Value(*v),
            Built::Maybe(o) => BuiltView::Maybe(*o),
            Built::Sequence(vs) => BuiltView::Sequence(vs@),
        }
    }
}

/// The slot a field starts with: an empty sequence for an accumulator, unset
/// otherwise.
pub open spec fn fresh_slot<V>(role: FieldRole) -> SlotView<V> {
    if role == FieldRole::Accumulator {
        SlotView::Many(Seq::empty())
    } else {
        SlotView::Unset
    }
}

pub open spec fn fresh_slots<V>(roles: Seq<FieldRole>) -> Seq<SlotView<V>> {
    roles.map_values(|r: FieldRole| fresh_slot::<V>(r))
}

/// The slots match the roles: exactly the accumulator slots hold a sequence.
pub open spec fn slots_wf<V>(roles: Seq<FieldRole>, slots: Seq<SlotView<V>>) -> bool {
    &&& slots.len() == roles.len()
    &&& forall|i: int|
        0 <= i < roles.len() ==> (roles[i] == FieldRole::Accumulator <==> #[trigger] slots[i] is Many)
}

/// The slots after a plain setter stored `v` in slot `i`.
pub open spec fn set_slot<V>(slots: Seq<SlotView<V>>, i: int, v: V) -> Seq<SlotView<V>> {
    slots.update(i, SlotView::One(v))
}

/// The slots after a plain setter stored the sequence `vs` in slot `i`.
pub open spec fn set_sequence_slot<V>(slots: Seq<SlotView<V>>, i: int, vs: Seq<V>) -> Seq<
    SlotView<V>,
> {
    slots.update(i, SlotView::Many(vs))
}

/// The slots after an element setter appended `v` to slot `i`.
pub open spec fn push_slot<V>(slots: Seq<SlotView<V>>, i: int, v: V) -> Seq<SlotView<V>> {
    slots.update(
        i,
        match slots[i] {
            SlotView::Many(vs) => SlotView::Many(vs.push(v)),
            _ => SlotView::Many(seq![v]),
        },
    )
}

/// The slots after the element setter of slot `i` was called with each of `vs`,
/// in order.
pub open spec fn push_all<V>(slots: Seq<SlotView<V>>, i: int, vs: Seq<V>) -> Seq<SlotView<V>>
    decreases vs.len(),
{
    if vs.len() == 0 {
        slots
    } else {
        push_slot(push_all(slots, i, vs.drop_last()), i, vs.last())
    }
}

/// Field `i` is not optional and its slot was never set.
pub open spec fn is_missing<V>(roles: Seq<FieldRole>, slots: Seq<SlotView<V>>, i: int) -> bool {
    roles[i] != FieldRole::Optional && slots[i] is Unset
}

/// Field `i` is the first missing field in declared order.
pub open spec fn is_first_missing<V>(
    roles: Seq<FieldRole>,
    slots: Seq<SlotView<V>>,
    i: int,
) -> bool {
    &&& 0 <= i < roles.len()
    &&& is_missing(roles, slots, i)
    &&& forall|j: int| 0 <= j < i ==> !is_missing(roles, slots, j)
}

/// What `build` produces for a field whose slot is not missing.
pub open spec fn built_value<V>(role: FieldRole, slot: SlotView<V>) -> BuiltView<V> {
    if role == FieldRole::Optional {
        BuiltView::Maybe(
            match slot {
                SlotView::One(v) => Some(v),
                _ => None,
            },
        )
    } else {
        match slot {
            SlotView::One(v) => BuiltView::Value(v),
            SlotView::Many(vs) => BuiltView::Sequence(vs),
            SlotView::Unset => BuiltView::Maybe(None),
        }
    }
}

/// Which operation a method name of the builder stands for.
#[derive(Clone, Copy, Debug, PartialEq, Eq, Structural)]
pub enum SetterAction {
    /// The plain setter of a field: overwrite the slot.
    Assign,
    /// The element setter of an accumulator: append to the slot.
    Append,
}

pub open spec fn has_plain_setter(f: ClassifiedField, method: Seq<char>) -> bool {
    f.emit_plain_setter && f.name@ == method
}

pub open spec fn has_element_setter(f: ClassifiedField, method: Seq<char>) -> bool {
    f.kind matches FieldKind::Accumulator(_, s) && s@ == method
}

impl BuilderPlan {
    /// The field and operation behind the setter method `method`, looking first
    /// at plain setters and then at element setters, each in declared order.
    pub fn find_setter(&self, method: &String) -> (r: Option<(usize, SetterAction)>)
        ensures
            match r {
                Some((i, SetterAction::Assign)) => {
                    &&& i < self.fields@.len()
                    &&& has_plain_setter(self.fields@[i as int], method@)
                    &&& forall|j: int|
                        0 <= j < i ==> !has_plain_setter(#[trigger] self.fields@[j], method@)
                },
                Some((i, SetterAction::Append)) => {
                    &&& i < self.fields@.len()
                    &&& has_element_setter(self.fields@[i as int], method@)
                    &&& forall|j: int|
                        0 <= j < self.fields@.len() ==> !has_plain_setter(
                            #[trigger] self.fields@[j],
                            method@,
                        )
                    &&& forall|j: int|
                        0 <= j < i ==> !has_element_setter(#[trigger] self.fields@[j], method@)
                },
                None => forall|j: int|
                    0 <= j < self.fields@.len() ==> !has_plain_setter(
                        #[trigger] self.fields@[j],
                        method@,
                    ) && !has_element_setter(self.fields@[j], method@),
            },
    {
        let mut i: usize = 0;
        while i < self.fields.len()
            invariant
                i <= self.fields@.len(),
                forall|j: int| 0 <= j < i ==> !has_plain_setter(#[trigger] self.fields@[j], method@),
            decreases self.fields@.len() - i,
        {
            let f = &self.fields[i];
            if f.emit_plain_setter && f.name == *method {
                return Some((i, SetterAction::Assign));
            }
            i = i + 1;
        }
        let mut k: usize = 0;
        while k < self.fields.len()
            invariant
                k <= self.fields@.len(),
                forall|j: int|
                    0 <= j < self.fields@.len() ==> !has_plain_setter(
                        #[trigger] self.fields@[j],
                        method@,
                    ),
                forall|j: int| 0 <= j < k ==> !has_element_setter(#[trigger] self.fields@[j], method@),
            decreases self.fields@.len() - k,
        {
            match &self.fields[k].kind {
                FieldKind::Accumulator(_, s) => {
                    if *s == *method {
                        return Some((k, SetterAction::Append));
                    }
                },
                _ => {},
            }
            k = k + 1;
        }
        None
    }
}

/// A builder that runs the operations a plan describes: one slot per field,
/// setters that fill slots, and a validating `build`.
pub struct Builder<V> {
    names: Vec<String>,
    roles: Vec<FieldRole>,
    slots: Vec<Slot<V>>,
}

impl<V: Copy> Builder<V> {
    /// The names of the fields, in declared order.
    pub closed spec fn names(&self) -> Seq<Seq<char>> {
        self.names@.map_values(|n: String| n@)
    }

    /// The roles of the fields, in declared order.
    pub closed spec fn roles(&self) -> Seq<FieldRole> {
        self.roles@
    }

    /// The slots, in declared order.
    pub closed spec fn slots(&self) -> Seq<SlotView<V>> {
        self.slots@.map_values(|s: Slot<V>| s@)
    }

    pub closed spec fn wf(&self) -> bool {
        &&& self.names@.len() == self.roles@.len()
        &&& slots_wf(self.roles(), self.slots())
    }

    /// What a well-formed builder holds: one name and one role per slot, and
    /// exactly the accumulator slots hold a sequence.
    pub proof fn lemma_wf(&self)
        requires
            self.wf(),
        ensures
            slots_wf(self.roles(), self.slots()),
            self.names().len() == self.roles().len(),
    {
    }

    /// A fresh builder for the plan: accumulator slots hold an empty sequence,
    /// all other slots are unset.
    pub fn new(plan: &BuilderPlan) -> (r: Self)
        ensures
            r.wf(),
            r.names() == plan.fields@.map_values(|f: ClassifiedField| f.name@),
            r.roles() == plan.fields@.map_values(|f: ClassifiedField| role_of(f.kind)),
            r.slots() == fresh_slots::<V>(r.roles()),
    {
        let mut names: Vec<String> = Vec::new();
        let mut roles: Vec<FieldRole> = Vec::new();
        let mut slots: Vec<Slot<V>> = Vec::new();
        let mut i: usize = 0;
        while i < plan.fields.len()
            invariant
                i <= plan.fields@.len(),
                names@.len() == i,
                roles@.len() == i,
                slots@.len() == i,
                forall|j: int| 0 <= j < i ==> (#[trigger] names@[j])@ == plan.fields@[j].name@,
                forall|j: int| 0 <= j < i ==> #[trigger] roles@[j] == role_of(plan.fields@[j].kind),
                forall|j: int| 0 <= j < i ==> (#[trigger] slots@[j])@ == fresh_slot::<V>(roles@[j]),
            decreases plan.fields@.len() - i,
        {
            let f = &plan.fields[i];
            names.push(f.name.clone());
            match &f.kind {
                FieldKind::Required(_) => {
                    roles.push(FieldRole::Required);
                    slots.push(Slot::Unset);
                },
                FieldKind::Optional(_) => {
                    roles.push(FieldRole::Optional);
                    slots.push(Slot::Unset);
                },
                FieldKind::Accumulator(_, _) => {
                    roles.push(FieldRole::Accumulator);
                    slots.push(Slot::Many(Vec::new()));
                },
            }
            i = i + 1;
        }
        let r = Builder { names, roles, slots };
        assert(r.names() =~= plan.fields@.map_values(|f: ClassifiedField| f.name@));
        assert(r.roles() =~= plan.fields@.map_values(|f: ClassifiedField| role_of(f.kind)));
        assert(r.slots() =~= fresh_slots::<V>(r.roles()));
        r
    }

    /// The number of fields.
    pub fn len(&self) -> (r: usize)
        requires
            self.wf(),
        ensures
            r == self.roles().len(),
    {
        self.roles.len()
    }

    /// The role of field `i`.
    pub fn role(&self, i: usize) -> (r: FieldRole)
        requires
            self.wf(),
            i < self.roles().len(),
        ensures
            r == self.roles()[i as int],
    {
        self.roles[i]
    }

    /// The plain setter of a required or optional field: stores `v` in slot `i`,
    /// replacing what was there.
    pub fn set(&mut self, i: usize, v: V)
        requires
            old(self).wf(),
            i < old(self).roles().len(),
            old(self).roles()[i as int] != FieldRole::Accumulator,
        ensures
            final(self).wf(),
            final(self).names() == old(self).names(),
            final(self).roles() == old(self).roles(),
            final(self).slots() == set_slot(old(self).slots(), i as int, v),
    {
        self.slots.set(i, Slot::One(v));
        assert(self.slots() =~= set_slot(old(self).slots(), i as int, v));
    }

    /// The plain setter of an accumulator field: stores the whole sequence `vs`
    /// in slot `i`, replacing what was there.
    pub fn set_sequence(&mut self, i: usize, vs: Vec<V>)
        requires
            old(self).wf(),
            i < old(self).roles().len(),
            old(self).roles()[i as int] == FieldRole::Accumulator,
        ensures
            final(self).wf(),
            final(self).names() == old(self).names(),
            final(self).roles() == old(self).roles(),
            final(self).slots() == set_sequence_slot(old(self).slots(), i as int, vs@),
    {
        let ghost seq = vs@;
        self.slots.set(i, Slot::Many(vs));
        assert(self.slots() =~= set_sequence_slot(old(self).slots(), i as int, seq));
    }

    /// The element setter of an accumulator field: appends `v` to slot `i`.
    pub fn push(&mut self, i: usize, v: V)
        requires
            old(self).wf(),
            i < old(self).roles().len(),
            old(self).roles()[i as int] == FieldRole::Accumulator,
        ensures
            final(self).wf(),
            final(self).names() == old(self).names(),
            final(self).roles() == old(self).roles(),
            final(self).slots() == push_slot(old(self).slots(), i as int, v),
    {
        let mut old_slot: Slot<V> = Slot::Unset;
        self.slots.set_and_swap(i, &mut old_slot);
        let new_slot = match old_slot {
            Slot::Many(mut vs) => {
                vs.push(v);
                Slot::Many(vs)
            },
            _ => Slot::Many(vec![v]),
        };
        self.slots.set(i, new_slot);
        assert(self.slots() =~= push_slot(old(self).slots(), i as int, v));
    }

    /// Checks the fields in declared order and produces their values. Fails on
    /// the first field that is neither optional nor set, naming it; the builder
    /// is left as it was, so `build` can be called again after more setters.
    pub fn build(&self) -> (r: Result<Vec<Built<V>>, String>)
        requires
            self.wf(),
        ensures
            match r {
                Ok(out) => {
                    &&& forall|i: int|
                        0 <= i < self.roles().len() ==> !is_missing(self.roles(), self.slots(), i)
                    &&& out@.len() == self.roles().len()
                    &&& forall|i: int|
                        0 <= i < out@.len() ==> (#[trigger] out@[i])@ == built_value(
                            self.roles()[i],
                            self.slots()[i],
                        )
                },
                Err(m) => exists|i: int|
                    is_first_missing(self.roles(), self.slots(), i) && m@ == missing_text(
                        self.names()[i],
                    ),
            },
    {
        let mut out: Vec<Built<V>> = Vec::new();
        let mut i: usize = 0;
        while i < self.roles.len()
            invariant
                self.wf(),
                i <= self.roles@.len(),
                out@.len() == i,
                forall|j: int| 0 <= j < i ==> !is_missing(self.roles(), self.slots(), j),
                forall|j: int|
                    0 <= j < i ==> (#[trigger] out@[j])@ == built_value(
                        self.roles()[j],
                        self.slots()[j],
                    ),
            decreases self.roles@.len() - i,
        {
            let role = self.roles[i];
            assert(self.slots()[i as int] == self.slots@[i as int]@);
            let value = match &self.slots[i] {
                Slot::One(v) => {
                    if role == FieldRole::Optional {
                        Built::Maybe(Some(*v))
                    } else {
                        Built::Value(*v)
                    }
                },
                Slot::Many(vs) => Built::Sequence(copy_all(vs)),
                Slot::Unset => {
                    if role == FieldRole::Optional {
                        Built::Maybe(None)
                    } else {
                        assert(is_first_missing(self.roles(), self.slots(), i as int));
                        assert(self.names()[i as int] == self.names@[i as int]@);
                        return Err(self.names[i].clone().concat(" must be set"));
                    }
                },
            };
            out.push(value);
            i = i + 1;
        }
        Ok(out)
    }
}

/// A copy of `vs`.
fn copy_all<V: Copy>(vs: &Vec<V>) -> (r: Vec<V>)
    ensures
        r@ == vs@,
{
    let mut out: Vec<V> = Vec::new();
    let mut i: usize = 0;
    while i < vs.len()
        invariant
            i <= vs@.len(),
            out@ == vs@.subrange(0, i as int),
        decreases vs@.len() - i,
    {
        out.push(vs[i]);
        i = i + 1;
    }
    assert(vs@.subrange(0, vs@.len() as int) == vs@);
    out
}

} // verus!
