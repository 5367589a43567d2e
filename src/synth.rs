use vstd::prelude::*;
use crate::attr::{attrs_meaning, parse_field_attributes};
use crate::classify::{get_option_type_inner, get_vec_type_inner, option_inner, vec_inner};
use crate::diagnostic::{Diagnostic, DiagnosticKind};
use crate::schema::{FieldDef, RecordBody, RecordDef, Span, TypeExpr};

verus! {

/// A type expression of the input, by handle and source text.
pub struct TypeRef {
    pub id: usize,
    pub text: String,
}

/// `r` stands for the type expression `t`.
pub open spec fn refers_to(r: TypeRef, t: TypeExpr) -> bool {
    r.id == t.id && r.text@ == t.text@
}

/// A reference to the type expression `t`.
pub fn type_ref(t: &TypeExpr) -> (r: TypeRef)
    ensures
        refers_to(r, *t),
{
    TypeRef { id: t.id, text: t.text.clone() }
}

/// How the builder treats a field.
pub enum FieldKind {
    /// Must be set before `build`; holds the declared type.
    Required(TypeRef),
    /// Declared as `Option<T>`; holds `T`. Left unset, it builds as `None`.
    Optional(TypeRef),
    /// Declared as `Vec<E>` with `builder(each = "name")`; holds `E` and `name`.
    Accumulator(TypeRef, String),
}

/// The three roles a field can play, without their types.
#[derive(Clone, Copy, Debug, PartialEq, Eq, Structural)]
pub enum FieldRole {
    Required,
    Optional,
    Accumulator,
}

pub open spec fn role_of(kind: FieldKind) -> FieldRole {
    match kind {
        FieldKind::Required(_) => FieldRole::Required,
        FieldKind::Optional(_) => FieldRole::Optional,
        FieldKind::Accumulator(_, _) => FieldRole::Accumulator,
    }
}

/// A field together with the role it plays in the builder.
pub struct ClassifiedField {
    pub name: String,
    pub span: Span,
    pub declared_type: TypeRef,
    pub kind: FieldKind,
    /// False only when the element setter has the field's own name, which
    /// would otherwise define one method twice.
    pub emit_plain_setter: bool,
}

/// The diagnostic that a field definition raises, if any.
pub open spec fn field_error(f: FieldDef) -> Option<Diagnostic> {
    match attrs_meaning(f.attrs@) {
        Err(d) => Some(d),
        Ok(Some(_)) => if vec_inner(f.ty) is None {
            Some(Diagnostic { span: f.span, kind: DiagnosticKind::AccumulatorNotSequence })
        } else {
            None
        },
        Ok(None) => None,
    }
}

/// `c` is the classification of the field definition `f`.
pub open spec fn classified_as(c: ClassifiedField, f: FieldDef) -> bool {
    &&& c.name@ == f.name@
    &&& c.span == f.span
    &&& refers_to(c.declared_type, f.ty)
    &&& match attrs_meaning(f.attrs@) {
        Ok(Some(setter)) => match c.kind {
            FieldKind::Accumulator(elem, s) => {
                &&& s@ == setter
                &&& vec_inner(f.ty) is Some
                &&& refers_to(elem, vec_inner(f.ty)->Some_0)
                &&& c.emit_plain_setter == (setter != f.name@)
            },
            _ => false,
        },
        Ok(None) => {
            &&& c.emit_plain_setter
            &&& match option_inner(f.ty) {
                Some(t) => c.kind matches FieldKind::Optional(inner) && refers_to(inner, t),
                None => c.kind matches FieldKind::Required(ty) && refers_to(ty, f.ty),
            }
        },
        Err(_) => false,
    }
}

/// The first diagnostic among the fields, in declared order.
pub open spec fn fields_error(fs: Seq<FieldDef>) -> Option<Diagnostic>
    decreases fs.len(),
{
    if fs.len() == 0 {
        None
    } else {
        match fields_error(fs.drop_last()) {
            Some(d) => Some(d),
            None => field_error(fs.last()),
        }
    }
}

/// The fields of a struct with named fields; nothing for other shapes.
pub open spec fn record_fields(def: RecordDef) -> Seq<FieldDef> {
    match def.body {
        RecordBody::Named(fs) => fs@,
        _ => Seq::empty(),
    }
}

/// The diagnostic that a record definition raises, if any.
pub open spec fn record_error(def: RecordDef) -> Option<Diagnostic> {
    match def.body {
        RecordBody::Named(fs) => fields_error(fs@),
        _ => Some(Diagnostic { span: def.span, kind: DiagnosticKind::UnsupportedShape }),
    }
}

/// Classifies one field definition.
pub fn classify_field(f: &FieldDef) -> (r: Result<ClassifiedField, Diagnostic>)
    ensures
        match r {
            Ok(c) => field_error(*f) is None && classified_as(c, *f),
            Err(d) => field_error(*f) == Some(d),
        },
{
    let attr = match parse_field_attributes(&f.attrs) {
        Ok(a) => a,
        Err(d) => return Err(d),
    };
    match attr {
        Some(setter) => match get_vec_type_inner(&f.ty) {
            Some(elem) => {
                let plain = !(setter == f.name);
                Ok(
                    ClassifiedField {
                        name: f.name.clone(),
                        span: f.span,
                        declared_type: type_ref(&f.ty),
                        kind: FieldKind::Accumulator(type_ref(elem), setter),
                        emit_plain_setter: plain,
                    },
                )
            },
            None => Err(Diagnostic::new(f.span, DiagnosticKind::AccumulatorNotSequence)),
        },
        None => {
            let kind = match get_option_type_inner(&f.ty) {
                Some(inner) => FieldKind::Optional(type_ref(inner)),
                None => FieldKind::Required(type_ref(&f.ty)),
            };
            Ok(
                ClassifiedField {
                    name: f.name.clone(),
                    span: f.span,
                    declared_type: type_ref(&f.ty),
                    kind,
                    emit_plain_setter: true,
                },
            )
        },
    }
}

/// Classifies the fields of a record definition, in declared order. The first
/// diagnostic, in that order, aborts the whole classification.
pub fn classify_record(def: &RecordDef) -> (r: Result<Vec<ClassifiedField>, Diagnostic>)
    ensures
        match r {
            Ok(cs) => {
                &&& record_error(*def) is None
                &&& def.body is Named
                &&& cs@.len() == record_fields(*def).len()
                &&& forall|i: int|
                    0 <= i < cs@.len() ==> classified_as(#[trigger] cs@[i], record_fields(*def)[i])
            },
            Err(d) => record_error(*def) == Some(d),
        },
{
    let fields = match &def.body {
        RecordBody::Named(fs) => fs,
        _ => return Err(Diagnostic::new(def.span, DiagnosticKind::UnsupportedShape)),
    };
    let mut out: Vec<ClassifiedField> = Vec::new();
    let mut i: usize = 0;
    while i < fields.len()
        invariant
            i <= fields.len(),
            def.body == RecordBody::Named(*fields),
            fields_error(fields@.subrange(0, i as int)) is None,
            out@.len() == i,
            forall|j: int| 0 <= j < i ==> classified_as(#[trigger] out@[j], fields@[j]),
        decreases fields.len() - i,
    {
        proof {
            assert(fields@.subrange(0, i + 1).drop_last() == fields@.subrange(0, i as int));
        }
        match classify_field(&fields[i]) {
            Ok(c) => {
                out.push(c);
            },
            Err(d) => {
                proof {
                    lemma_fields_error_persists(fields@, i as int + 1);
                }
                return Err(d);
            },
        }
        i = i + 1;
    }
    proof {
        assert(fields@.subrange(0, fields@.len() as int) == fields@);
    }
    Ok(out)
}

/// Once a prefix of the fields raises a diagnostic, the whole list raises it.
pub proof fn lemma_fields_error_persists(fs: Seq<FieldDef>, k: int)
    requires
        0 <= k <= fs.len(),
        fields_error(fs.subrange(0, k)) is Some,
    ensures
        fields_error(fs) == fields_error(fs.subrange(0, k)),
    decreases fs.len() - k,
{
    if k < fs.len() {
        assert(fs.subrange(0, k + 1).drop_last() == fs.subrange(0, k));
        lemma_fields_error_persists(fs, k + 1);
    } else {
        assert(fs.subrange(0, k) == fs);
    }
}

/// The message with which `build` reports a missing field.
pub open spec fn missing_text(name: Seq<char>) -> Seq<char> {
    name + " must be set"@
}

impl ClassifiedField {
    /// The type held in the field's builder slot, and taken by its plain setter:
    /// the declared type with one `Option` layer removed.
    pub fn slot_type(&self) -> (r: &TypeRef)
        ensures
            *r == match self.kind {
                FieldKind::Required(t) => t,
                FieldKind::Optional(t) => t,
                FieldKind::Accumulator(_, _) => self.declared_type,
            },
    {
        match &self.kind {
            FieldKind::Required(t) => t,
            FieldKind::Optional(t) => t,
            FieldKind::Accumulator(_, _) => &self.declared_type,
        }
    }

    /// Whether the slot starts as an empty sequence rather than unset.
    pub fn starts_with_empty_sequence(&self) -> (r: bool)
        ensures
            r == (self.kind is Accumulator),
    {
        match &self.kind {
            FieldKind::Accumulator(_, _) => true,
            _ => false,
        }
    }

    /// The message `build` fails with when the slot is unset; `None` for an
    /// optional field, which builds as `None` instead.
    pub fn missing_message(&self) -> (r: Option<String>)
        ensures
            match r {
                Some(m) => !(self.kind is Optional) && m@ == missing_text(self.name@),
                None => self.kind is Optional,
            },
    {
        match &self.kind {
            FieldKind::Optional(_) => None,
            _ => Some(self.name.clone().concat(" must be set")),
        }
    }
}

/// Everything needed to emit the builder of a record: the factory on the
/// record, the builder type with one slot per field, and its operations.
pub struct BuilderPlan {
    pub record_name: String,
    pub builder_name: String,
    pub fields: Vec<ClassifiedField>,
}

/// Plans the builder of a record definition, or returns the first diagnostic.
pub fn generate(def: &RecordDef) -> (r: Result<BuilderPlan, Diagnostic>)
    ensures
        match r {
            Ok(plan) => {
                &&& record_error(*def) is None
                &&& plan.record_name@ == def.name@
                &&& plan.builder_name@ == def.name@ + "Builder"@
                &&& plan.fields@.len() == record_fields(*def).len()
                &&& forall|i: int|
                    0 <= i < plan.fields@.len() ==> classified_as(
                        #[trigger] plan.fields@[i],
                        record_fields(*def)[i],
                    )
            },
            Err(d) => record_error(*def) == Some(d),
        },
{
    let fields = match classify_record(def) {
        Ok(cs) => cs,
        Err(d) => return Err(d),
    };
    Ok(
        BuilderPlan {
            record_name: def.name.clone(),
            builder_name: def.name.clone().concat("Builder"),
            fields,
        },
    )
}

} // verus!
