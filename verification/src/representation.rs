//! The descriptor model: which widget each UI-visible field is rendered
//! with, and the trait a record type implements to publish its registry.
//!
//! Contracts speak of descriptors through their mathematical views,
//! [`DescriptorModel`] and [`VariantModel`], in which a field name is a
//! sequence of characters and nested groups are sequences of child
//! models.

use vstd::prelude::*;

verus! {

broadcast use vstd::std_specs::vec::group_vec_axioms;

/// The widget kind a field is rendered with.
#[derive(Debug)]
pub enum UIRepresentationVariant {
    /// A choice among predefined options.
    Select,
    /// A boolean toggle.
    Checkbox,
    /// A multi-line text area.
    TextBox,
    /// A single-line text entry.
    TextEntry,
    /// A nested group of descriptors.
    Tab(Vec<UIRepresentation>),
}

/// One field's entry in a record type's registry: the field's name and
/// the widget it is rendered with.
#[derive(Debug)]
pub struct UIRepresentation {
    pub field: String,
    pub variant: UIRepresentationVariant,
}

/// The mathematical view of a widget kind.
pub enum VariantModel {
    Select,
    Checkbox,
    TextBox,
    TextEntry,
    Tab(Seq<DescriptorModel>),
}

/// The mathematical view of one descriptor.
pub struct DescriptorModel {
    pub field: Seq<char>,
    pub variant: VariantModel,
}

/// The view of a widget kind.
pub open spec fn variant_model(v: UIRepresentationVariant) -> VariantModel
    decreases v,
{
    match v {
        UIRepresentationVariant::Select => VariantModel::Select,
        UIRepresentationVariant::Checkbox => VariantModel::Checkbox,
        UIRepresentationVariant::TextBox => VariantModel::TextBox,
        UIRepresentationVariant::TextEntry => VariantModel::TextEntry,
        UIRepresentationVariant::Tab(children) => VariantModel::Tab(registry_model(children@)),
    }
}

/// The view of one descriptor.
pub open spec fn descriptor_model(d: UIRepresentation) -> DescriptorModel
    decreases d,
{
    DescriptorModel { field: d.field@, variant: variant_model(d.variant) }
}

/// The view of an ordered descriptor list.
pub open spec fn registry_model(descs: Seq<UIRepresentation>) -> Seq<DescriptorModel>
    decreases descs,
{
    if descs.len() == 0 {
        Seq::empty()
    } else {
        seq![descriptor_model(descs[0])] + registry_model(descs.drop_first())
    }
}

/// A descriptor list and its view have the same length.
pub broadcast proof fn lemma_registry_model_len(descs: Seq<UIRepresentation>)
    ensures
        #[trigger] registry_model(descs).len() == descs.len(),
    decreases descs,
{
    if descs.len() != 0 {
        lemma_registry_model_len(descs.drop_first());
    }
}

/// The view of a descriptor list is the list of the views.
pub broadcast proof fn lemma_registry_model_index(descs: Seq<UIRepresentation>, i: int)
    requires
        0 <= i < descs.len(),
    ensures
        #[trigger] registry_model(descs)[i] == descriptor_model(descs[i]),
    decreases descs,
{
    lemma_registry_model_len(descs);
    if i > 0 {
        lemma_registry_model_index(descs.drop_first(), i - 1);
    }
}

/// The facts every caller of [`registry_model`] needs.
pub broadcast group group_registry_model {
    lemma_registry_model_len,
    lemma_registry_model_index,
}

/// A record type that publishes an ordered field-descriptor registry.
///
/// The registry describes the type, not an instance: it is fixed for the
/// life of the type, so both methods return the same list.
pub trait UIRepresented {
    /// The registry's view; every implementation pins its executable
    /// methods to this value.
    spec fn spec_ui_representation() -> Seq<DescriptorModel>;

    /// The ordered descriptor list of this record type.
    fn ui_representation() -> (r: Vec<UIRepresentation>)
        ensures
            registry_model(r@) == Self::spec_ui_representation(),
    ;

    /// The same registry, reached from an instance.
    fn own_ui_representation(&self) -> (r: Vec<UIRepresentation>)
        ensures
            registry_model(r@) == Self::spec_ui_representation(),
    {
        Self::ui_representation()
    }
}

} // verus!
