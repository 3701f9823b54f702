//! Registration of a record type's fields.
//!
//! A record type hands registration one declaration per field: the field's
//! name, an explicit tag for its declared value type, and how (or whether)
//! the field opted in to UI representation. Registration turns those
//! declarations into the ordered descriptor list, or fails with a typed
//! error when a declaration is unusable; such a failure marks a mistake in
//! the type's declaration and halts registration, never a runtime fault.

use vstd::prelude::*;

use crate::representation::UIRepresentation;
use crate::representation::UIRepresentationVariant;

verus! {

/// The declared value type of a field, as an explicit tag.
#[derive(Debug, Clone, Copy, PartialEq, Eq, Structural)]
pub enum FieldType {
    /// A boolean value.
    Boolean,
    /// A string value.
    Text,
    /// Any other value type; no widget can be inferred for it.
    Other,
}

/// How a field opted in to UI representation.
#[derive(Debug)]
pub enum FieldAnnotation {
    /// Opted in without naming a widget: one is inferred from the field's
    /// declared value type.
    Inferred,
    /// Opted in naming a widget explicitly.
    Explicit(String),
    /// Opted in with an argument shape registration does not understand:
    /// no widget name, several arguments, or a name-value form.
    Malformed,
}

/// One field of a record type, as handed to registration. A field with no
/// annotation is not UI-visible and gets no descriptor.
#[derive(Debug)]
pub struct FieldDecl {
    pub name: String,
    pub ty: FieldType,
    pub annotation: Option<FieldAnnotation>,
}

/// Why registration of a record type failed.
#[derive(Debug, Clone, Copy, PartialEq, Eq, Structural)]
pub enum RegistryError {
    /// An explicitly named widget is not one registration knows.
    UnknownVariant,
    /// The annotation's argument shape is not understood.
    MalformedAnnotation,
    /// The field's value type has no default widget and none was named.
    NoDefault,
}

/// The only widget name accepted as an explicit annotation argument.
pub open spec fn spec_explicit_variant(name: Seq<char>) -> Result<
    UIRepresentationVariant,
    RegistryError,
> {
    if name == "checkbox"@ {
        Ok(UIRepresentationVariant::Checkbox)
    } else {
        Err(RegistryError::UnknownVariant)
    }
}

/// The widget a declaration asks for: `None` when the field did not opt
/// in, otherwise the explicit or inferred widget, or the error that makes
/// the declaration unusable.
pub open spec fn spec_field_variant(d: FieldDecl) -> Option<
    Result<UIRepresentationVariant, RegistryError>,
> {
    match d.annotation {
        Option::None => None,
        Option::Some(FieldAnnotation::Inferred) => match d.ty {
            FieldType::Boolean => Some(Ok(UIRepresentationVariant::Checkbox)),
            FieldType::Text => Some(Ok(UIRepresentationVariant::TextEntry)),
            FieldType::Other => Some(Err(RegistryError::NoDefault)),
        },
        Option::Some(FieldAnnotation::Explicit(name)) => Some(spec_explicit_variant(name@)),
        Option::Some(FieldAnnotation::Malformed) => Some(
            Err(RegistryError::MalformedAnnotation),
        ),
    }
}

/// Executable counterpart of [`spec_field_variant`].
pub fn field_variant(d: &FieldDecl) -> (r: Option<Result<UIRepresentationVariant, RegistryError>>)
    ensures
        r == spec_field_variant(*d),
{
    match &d.annotation {
        Option::None => None,
        Option::Some(FieldAnnotation::Inferred) => match d.ty {
            FieldType::Boolean => Some(Ok(UIRepresentationVariant::Checkbox)),
            FieldType::Text => Some(Ok(UIRepresentationVariant::TextEntry)),
            FieldType::Other => Some(Err(RegistryError::NoDefault)),
        },
        Option::Some(FieldAnnotation::Explicit(name)) => {
            let checkbox: String = "checkbox".to_owned();
            if name.eq(&checkbox) {
                Some(Ok(UIRepresentationVariant::Checkbox))
            } else {
                Some(Err(RegistryError::UnknownVariant))
            }
        },
        Option::Some(FieldAnnotation::Malformed) => Some(
            Err(RegistryError::MalformedAnnotation),
        ),
    }
}

/// The registry a sequence of declarations yields: a descriptor for every
/// opted-in field, in declaration order, or the error of the first
/// unusable declaration.
pub open spec fn spec_registry(fields: Seq<FieldDecl>) -> Result<
    Seq<UIRepresentation>,
    RegistryError,
>
    decreases fields.len(),
{
    if fields.len() == 0 {
        Ok(Seq::empty())
    } else {
        let rest = spec_registry(fields.drop_first());
        match spec_field_variant(fields[0]) {
            Option::None => rest,
            Option::Some(Err(e)) => Err(e),
            Option::Some(Ok(v)) => match rest {
                Ok(s) => Ok(
                    seq![UIRepresentation { field: fields[0].name, variant: v }] + s,
                ),
                Err(e) => Err(e),
            },
        }
    }
}

/// Build the descriptor registry for the given field declarations.
///
/// Succeeds exactly when every opted-in declaration is usable, and then
/// returns one descriptor per opted-in field, in declaration order.
pub fn build_representation(fields: &Vec<FieldDecl>) -> (r: Result<
    Vec<UIRepresentation>,
    RegistryError,
>)
    ensures
        match r {
            Ok(descs) => spec_registry(fields@) == Ok::<_, RegistryError>(descs@),
            Err(e) => spec_registry(fields@) == Err::<Seq<UIRepresentation>, _>(e),
        },
{
    let ghost all: Seq<FieldDecl> = fields@;
    let mut acc: Result<Vec<UIRepresentation>, RegistryError> = Ok(Vec::new());
    let mut i: usize = fields.len();
    while i > 0
        invariant
            i <= fields.len(),
            all == fields@,
            match acc {
                Ok(descs) => spec_registry(all.subrange(i as int, all.len() as int))
                    == Ok::<_, RegistryError>(descs@),
                Err(e) => spec_registry(all.subrange(i as int, all.len() as int))
                    == Err::<Seq<UIRepresentation>, _>(e),
            },
        decreases i,
    {
        i = i - 1;
        let ghost suffix = all.subrange(i as int, all.len() as int);
        proof {
            assert(suffix.drop_first() =~= all.subrange(i + 1, all.len() as int));
            assert(suffix[0] == all[i as int]);
        }
        acc = match (field_variant(&fields[i]), acc) {
            (Option::None, prev) => prev,
            (Option::Some(Err(e)), _) => Err(e),
            (Option::Some(Ok(v)), Ok(mut descs)) => {
                let d = UIRepresentation { field: fields[i].name.clone(), variant: v };
                let ghost gd = d;
                let ghost before = descs@;
                descs.insert(0, d);
                proof {
                    assert(descs@ =~= seq![gd] + before);
                }
                Ok(descs)
            },
            (Option::Some(Ok(_)), Err(e)) => Err(e),
        };
    }
    proof {
        assert(all.subrange(0, all.len() as int) =~= all);
    }
    acc
}

/// Whether a declaration opted in to UI representation.
pub open spec fn is_opted_in(d: FieldDecl) -> bool {
    spec_field_variant(d) is Some
}

/// Whether a declaration makes registration fail.
pub open spec fn is_unusable(d: FieldDecl) -> bool {
    spec_field_variant(d) matches Some(r) && r is Err
}

/// Registration succeeds exactly when no declaration is unusable, and a
/// failure carries the error of the first unusable declaration.
pub proof fn lemma_registry_success(fields: Seq<FieldDecl>)
    ensures
        spec_registry(fields) is Ok <==> (forall|i: int|
            0 <= i < fields.len() ==> !is_unusable(#[trigger] fields[i])),
        spec_registry(fields) matches Err(e) ==> exists|i: int|
            0 <= i < fields.len() && #[trigger] spec_field_variant(fields[i]) == Some(
                Err::<UIRepresentationVariant, _>(e),
            ) && (forall|j: int| 0 <= j < i ==> !is_unusable(#[trigger] fields[j])),
    decreases fields.len(),
{
    if fields.len() > 0 {
        let rest_fields = fields.drop_first();
        lemma_registry_success(rest_fields);
        assert forall|i: int| 1 <= i < fields.len() implies rest_fields[i - 1]
            == #[trigger] fields[i] by {}
        match spec_field_variant(fields[0]) {
            Option::Some(Err(_)) => {},
            _ => {
                match spec_registry(rest_fields) {
                    Ok(_) => {},
                    Err(e) => {
                        let i = choose|i: int|
                            0 <= i < rest_fields.len() && #[trigger] spec_field_variant(
                                rest_fields[i],
                            ) == Some(Err::<UIRepresentationVariant, _>(e)) && (forall|j: int|
                                0 <= j < i ==> !is_unusable(#[trigger] rest_fields[j]));
                        assert(spec_field_variant(fields[i + 1]) == Some(
                            Err::<UIRepresentationVariant, _>(e),
                        ));
                        assert forall|j: int| 0 <= j < i + 1 implies !is_unusable(
                            #[trigger] fields[j],
                        ) by {
                            if j > 0 {
                                assert(rest_fields[j - 1] == fields[j]);
                            }
                        }
                    },
                }
            },
        }
    }
}

/// The opted-in declarations, in declaration order.
pub open spec fn opted_in(fields: Seq<FieldDecl>) -> Seq<FieldDecl>
    decreases fields.len(),
{
    if fields.len() == 0 {
        Seq::empty()
    } else if is_opted_in(fields[0]) {
        seq![fields[0]] + opted_in(fields.drop_first())
    } else {
        opted_in(fields.drop_first())
    }
}

/// A successful registration yields exactly one descriptor per opted-in
/// field, in declaration order, each carrying its field's name.
pub proof fn lemma_registry_shape(fields: Seq<FieldDecl>, descs: Seq<UIRepresentation>)
    requires
        spec_registry(fields) == Ok::<_, RegistryError>(descs),
    ensures
        descs.len() == opted_in(fields).len(),
        forall|i: int| 0 <= i < descs.len() ==> descs[i].field == opted_in(fields)[i].name,
    decreases fields.len(),
{
    if fields.len() > 0 {
        let rest_fields = fields.drop_first();
        match spec_field_variant(fields[0]) {
            Option::None => {
                lemma_registry_shape(rest_fields, descs);
            },
            Option::Some(Err(_)) => {},
            Option::Some(Ok(v)) => {
                let rest = spec_registry(rest_fields)->Ok_0;
                lemma_registry_shape(rest_fields, rest);
                assert(descs == seq![
                    UIRepresentation { field: fields[0].name, variant: v },
                ] + rest);
                assert(opted_in(fields) == seq![fields[0]] + opted_in(rest_fields));
            },
        }
    }
}

/// Every opted-in declaration is one of the given declarations.
pub proof fn lemma_opted_in_membership(fields: Seq<FieldDecl>)
    ensures
        forall|i: int|
            0 <= i < opted_in(fields).len() ==> exists|j: int|
                0 <= j < fields.len() && #[trigger] opted_in(fields)[i] == #[trigger] fields[j],
    decreases fields.len(),
{
    if fields.len() > 0 {
        let rest_fields = fields.drop_first();
        lemma_opted_in_membership(rest_fields);
        let opted = opted_in(fields);
        let shift: int = if is_opted_in(fields[0]) {
            1
        } else {
            0
        };
        assert forall|i: int| 0 <= i < opted.len() implies exists|j: int|
            0 <= j < fields.len() && #[trigger] opted[i] == #[trigger] fields[j] by {
            if i < shift {
                assert(opted[i] == fields[0]);
            } else {
                let k = choose|k: int|
                    0 <= k < rest_fields.len() && opted_in(rest_fields)[i - shift]
                        == rest_fields[k];
                assert(opted[i] == rest_fields[k]);
                assert(rest_fields[k] == fields[k + 1]);
            }
        }
    }
}

/// Distinct declaration names give distinct descriptor names.
pub proof fn lemma_registry_unique_names(fields: Seq<FieldDecl>, descs: Seq<UIRepresentation>)
    requires
        spec_registry(fields) == Ok::<_, RegistryError>(descs),
        forall|i: int, j: int|
            0 <= i < j < fields.len() ==> fields[i].name@ != fields[j].name@,
    ensures
        forall|i: int, j: int| 0 <= i < j < descs.len() ==> descs[i].field@ != descs[j].field@,
    decreases fields.len(),
{
    if fields.len() > 0 {
        let rest_fields = fields.drop_first();
        match spec_field_variant(fields[0]) {
            Option::None => {
                lemma_registry_unique_names(rest_fields, descs);
            },
            Option::Some(Err(_)) => {},
            Option::Some(Ok(v)) => {
                let rest = spec_registry(rest_fields)->Ok_0;
                lemma_registry_unique_names(rest_fields, rest);
                lemma_registry_shape(rest_fields, rest);
                lemma_opted_in_membership(rest_fields);
                assert(descs == seq![
                    UIRepresentation { field: fields[0].name, variant: v },
                ] + rest);
                assert forall|j: int| 1 <= j < descs.len() implies descs[0].field@
                    != #[trigger] descs[j].field@ by {
                    assert(descs[j].field == opted_in(rest_fields)[j - 1].name);
                    let k = choose|k: int|
                        0 <= k < rest_fields.len() && opted_in(rest_fields)[j - 1]
                            == rest_fields[k];
                    assert(rest_fields[k] == fields[k + 1]);
                }
            },
        }
    }
}

/// A field that opts in without naming a widget is inferred one from its
/// declared value type: a boolean field gets a checkbox, a string field a
/// single-line text entry.
pub proof fn lemma_default_inference(d: FieldDecl)
    requires
        d.annotation matches Option::Some(a) && a is Inferred,
    ensures
        d.ty == FieldType::Boolean ==> spec_field_variant(d) == Some(
            Ok::<_, RegistryError>(UIRepresentationVariant::Checkbox),
        ),
        d.ty == FieldType::Text ==> spec_field_variant(d) == Some(
            Ok::<_, RegistryError>(UIRepresentationVariant::TextEntry),
        ),
{
}

} // verus!
