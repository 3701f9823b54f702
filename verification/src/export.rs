//! The presentation exporter: a structure-preserving transform of a
//! descriptor list into an interchange form a UI consumer reads, and the
//! import that turns such a form back into descriptors.

use vstd::prelude::*;

use crate::representation::UIRepresentation;
use crate::representation::UIRepresentationVariant;
use crate::representation::descriptor_model;
use crate::representation::registry_model;

verus! {

broadcast use crate::representation::group_registry_model, vstd::std_specs::vec::group_vec_axioms;

/// The widget tag in the interchange form.
#[derive(Debug, Clone, Copy, PartialEq, Eq, Structural)]
pub enum SerializedVariant {
    Select,
    Checkbox,
    TextBox,
    TextEntry,
    Tab,
}

/// One descriptor in the interchange form: a field name, a widget tag,
/// and, for `Tab` only, the serialized children.
#[derive(Debug)]
pub struct SerializedDescriptor {
    pub field: String,
    pub variant: SerializedVariant,
    pub children: Option<Vec<SerializedDescriptor>>,
}

/// Whether `s` is the serialized form of `d`: the same field name, the
/// tag of `d`'s widget, and children exactly for a `Tab`, serialized
/// pointwise.
pub open spec fn serializes(d: UIRepresentation, s: SerializedDescriptor) -> bool
    decreases d,
{
    &&& s.field@ == d.field@
    &&& match d.variant {
        UIRepresentationVariant::Select => s.variant == SerializedVariant::Select
            && s.children is None,
        UIRepresentationVariant::Checkbox => s.variant == SerializedVariant::Checkbox
            && s.children is None,
        UIRepresentationVariant::TextBox => s.variant == SerializedVariant::TextBox
            && s.children is None,
        UIRepresentationVariant::TextEntry => s.variant == SerializedVariant::TextEntry
            && s.children is None,
        UIRepresentationVariant::Tab(ch) => {
            &&& s.variant == SerializedVariant::Tab
            &&& s.children matches Some(sc)
            &&& sc@.len() == ch@.len()
            &&& forall|i: int| 0 <= i < ch@.len() ==> serializes(ch@[i], #[trigger] sc@[i])
        },
    }
}

/// Pointwise [`serializes`], in order.
pub open spec fn serializes_list(ds: Seq<UIRepresentation>, ss: Seq<SerializedDescriptor>) -> bool {
    ds.len() == ss.len() && (forall|i: int|
        0 <= i < ds.len() ==> serializes(ds[i], #[trigger] ss[i]))
}

/// Serialize a descriptor list. A pure format transform: every descriptor
/// becomes one entry, in order, and `Tab` children recurse.
pub fn export(descs: &Vec<UIRepresentation>) -> (r: Vec<SerializedDescriptor>)
    ensures
        serializes_list(descs@, r@),
    decreases descs@,
{
    let mut out: Vec<SerializedDescriptor> = Vec::new();
    let mut i: usize = 0;
    while i < descs.len()
        invariant
            i <= descs.len(),
            out@.len() == i,
            forall|j: int| 0 <= j < i ==> serializes(descs@[j], #[trigger] out@[j]),
        decreases descs.len() - i,
    {
        let d = &descs[i];
        let s = match &d.variant {
            UIRepresentationVariant::Select => SerializedDescriptor {
                field: d.field.clone(),
                variant: SerializedVariant::Select,
                children: None,
            },
            UIRepresentationVariant::Checkbox => SerializedDescriptor {
                field: d.field.clone(),
                variant: SerializedVariant::Checkbox,
                children: None,
            },
            UIRepresentationVariant::TextBox => SerializedDescriptor {
                field: d.field.clone(),
                variant: SerializedVariant::TextBox,
                children: None,
            },
            UIRepresentationVariant::TextEntry => SerializedDescriptor {
                field: d.field.clone(),
                variant: SerializedVariant::TextEntry,
                children: None,
            },
            UIRepresentationVariant::Tab(children) => SerializedDescriptor {
                field: d.field.clone(),
                variant: SerializedVariant::Tab,
                children: Some(export(children)),
            },
        };
        out.push(s);
        i = i + 1;
    }
    out
}

/// Why an interchange form was rejected on import.
#[derive(Debug, Clone, Copy, PartialEq, Eq, Structural)]
pub enum ImportError {
    /// A `Tab` entry without children, or children under a leaf tag.
    MismatchedChildren,
}

/// Whether one interchange entry is well formed: children exactly under
/// a `Tab` tag, themselves well formed.
pub open spec fn well_formed_serialized(s: SerializedDescriptor) -> bool
    decreases s,
{
    match s.children {
        Option::None => s.variant != SerializedVariant::Tab,
        Option::Some(cs) => s.variant == SerializedVariant::Tab && (forall|i: int|
            0 <= i < cs@.len() ==> well_formed_serialized(#[trigger] cs@[i])),
    }
}

/// Pointwise [`well_formed_serialized`].
pub open spec fn well_formed_serialized_list(ss: Seq<SerializedDescriptor>) -> bool {
    forall|i: int| 0 <= i < ss.len() ==> well_formed_serialized(#[trigger] ss[i])
}

/// Read an interchange form back into a descriptor list.
///
/// Succeeds exactly on well-formed input, and then inverts [`export`]:
/// the result serializes back to the input, entry for entry.
pub fn import(ss: &Vec<SerializedDescriptor>) -> (r: Result<Vec<UIRepresentation>, ImportError>)
    ensures
        match r {
            Ok(ds) => well_formed_serialized_list(ss@) && serializes_list(ds@, ss@),
            Err(_) => !well_formed_serialized_list(ss@),
        },
    decreases ss@,
{
    let mut out: Vec<UIRepresentation> = Vec::new();
    let mut i: usize = 0;
    while i < ss.len()
        invariant
            i <= ss.len(),
            out@.len() == i,
            forall|j: int| 0 <= j < i ==> serializes(#[trigger] out@[j], ss@[j]),
        decreases ss.len() - i,
    {
        let s = &ss[i];
        let d = match (&s.variant, &s.children) {
            (SerializedVariant::Select, Option::None) => UIRepresentation {
                field: s.field.clone(),
                variant: UIRepresentationVariant::Select,
            },
            (SerializedVariant::Checkbox, Option::None) => UIRepresentation {
                field: s.field.clone(),
                variant: UIRepresentationVariant::Checkbox,
            },
            (SerializedVariant::TextBox, Option::None) => UIRepresentation {
                field: s.field.clone(),
                variant: UIRepresentationVariant::TextBox,
            },
            (SerializedVariant::TextEntry, Option::None) => UIRepresentation {
                field: s.field.clone(),
                variant: UIRepresentationVariant::TextEntry,
            },
            (SerializedVariant::Tab, Option::Some(cs)) => match import(cs) {
                Ok(children) => UIRepresentation {
                    field: s.field.clone(),
                    variant: UIRepresentationVariant::Tab(children),
                },
                Err(e) => {
                    proof {
                        assert(!well_formed_serialized(ss@[i as int]));
                    }
                    return Err(e);
                },
            },
            _ => {
                proof {
                    assert(!well_formed_serialized(ss@[i as int]));
                }
                return Err(ImportError::MismatchedChildren);
            },
        };
        out.push(d);
        i = i + 1;
    }
    proof {
        assert forall|j: int| 0 <= j < ss@.len() implies well_formed_serialized(
            #[trigger] ss@[j],
        ) by {
            lemma_serializes_well_formed(out@[j], ss@[j]);
        }
    }
    Ok(out)
}

/// A serialized entry pins its descriptor's view: two descriptors with
/// the same serialized form have equal views.
proof fn lemma_serializes_functional(
    a: UIRepresentation,
    b: UIRepresentation,
    s: SerializedDescriptor,
)
    requires
        serializes(a, s),
        serializes(b, s),
    ensures
        descriptor_model(a) == descriptor_model(b),
    decreases a,
{
    match (a.variant, b.variant) {
        (UIRepresentationVariant::Tab(ach), UIRepresentationVariant::Tab(bch)) => {
            let sc = s.children->Some_0;
            assert forall|i: int| 0 <= i < ach@.len() implies #[trigger] descriptor_model(ach@[i])
                == descriptor_model(bch@[i]) by {
                lemma_serializes_functional(ach@[i], bch@[i], sc@[i]);
            }
            assert(registry_model(ach@) =~= registry_model(bch@));
        },
        _ => {},
    }
}

/// Everything export produces is well formed, so import accepts it.
proof fn lemma_serializes_well_formed(d: UIRepresentation, s: SerializedDescriptor)
    requires
        serializes(d, s),
    ensures
        well_formed_serialized(s),
    decreases d,
{
    match d.variant {
        UIRepresentationVariant::Tab(ch) => {
            let sc = s.children->Some_0;
            assert forall|i: int| 0 <= i < sc@.len() implies well_formed_serialized(
                #[trigger] sc@[i],
            ) by {
                lemma_serializes_well_formed(ch@[i], sc@[i]);
            }
        },
        _ => {},
    }
}

/// Round trip: re-importing an exported descriptor list succeeds and
/// yields a structurally identical list. Stated over any list that
/// serializes to the exported form, which is what `import` returns.
pub proof fn lemma_export_import_round_trip(
    descs: Seq<UIRepresentation>,
    ss: Seq<SerializedDescriptor>,
    back: Seq<UIRepresentation>,
)
    requires
        serializes_list(descs, ss),
        serializes_list(back, ss),
    ensures
        well_formed_serialized_list(ss),
        registry_model(back) == registry_model(descs),
{
    assert forall|i: int| 0 <= i < ss.len() implies well_formed_serialized(#[trigger] ss[i]) by {
        lemma_serializes_well_formed(descs[i], ss[i]);
    }
    assert forall|i: int| 0 <= i < descs.len() implies #[trigger] descriptor_model(back[i])
        == descriptor_model(descs[i]) by {
        lemma_serializes_functional(back[i], descs[i], ss[i]);
    }
    assert(registry_model(back) =~= registry_model(descs));
}

} // verus!
