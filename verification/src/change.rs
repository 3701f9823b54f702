//! Change events and their dispatch semantics.
//!
//! A change event names one field and carries a payload shaped like one of
//! the widget kinds. Applying an event against a registry is a two-stage
//! decision: look the field up by name, then check that the payload's
//! shape matches the registered widget. Only when both stages pass may an
//! instance be mutated.

use vstd::prelude::*;

use crate::representation::DescriptorModel;
use crate::representation::UIRepresentation;
use crate::representation::UIRepresentationVariant;
use crate::representation::VariantModel;
use crate::representation::registry_model;
use crate::representation::variant_model;

verus! {

broadcast use crate::representation::group_registry_model;

/// Why a change event was rejected.
#[derive(Debug, Clone, Copy, PartialEq, Eq, Structural)]
pub enum UIChangableError {
    /// The payload's shape does not match the widget registered for the
    /// named field.
    WrongType,
    /// No descriptor is registered under the event's field name.
    InvalidField,
}

impl UIChangableError {
    /// A human-readable account of the error, for the caller to present.
    pub fn message(&self) -> (r: &'static str)
        ensures
            *self is WrongType ==> r@ == "The type of the field is not correct."@,
            *self is InvalidField ==> r@ == "The type specified does not exist"@,
    {
        match self {
            UIChangableError::WrongType => "The type of the field is not correct.",
            UIChangableError::InvalidField => "The type specified does not exist",
        }
    }
}

/// A request that one field of one record instance take on a new value.
#[derive(Debug)]
pub struct UIChangeEvent {
    pub field: String,
    pub variant: UIChangeEventVariant,
}

/// The payload of a change event: the same shapes as
/// [`UIRepresentationVariant`], each carrying a concrete value.
#[derive(Debug)]
pub enum UIChangeEventVariant {
    Select,
    Checkbox(bool),
    TextBox(String),
    TextEntry(String),
    Tab(Box<UIChangeEvent>),
}

/// Whether a payload's shape matches a registered widget kind.
///
/// A `Tab` payload matches a `Tab` widget outright: the nested event is
/// assigned to the field as a whole, not applied recursively.
pub open spec fn payload_matches(v: VariantModel, p: UIChangeEventVariant) -> bool {
    match v {
        VariantModel::Select => p is Select,
        VariantModel::Checkbox => p is Checkbox,
        VariantModel::TextBox => p is TextBox,
        VariantModel::TextEntry => p is TextEntry,
        VariantModel::Tab(_) => p is Tab,
    }
}

/// Executable shape check, equal to [`payload_matches`] on the views.
pub fn variant_matches(v: &UIRepresentationVariant, p: &UIChangeEventVariant) -> (b: bool)
    ensures
        b == payload_matches(variant_model(*v), *p),
{
    match (v, p) {
        (UIRepresentationVariant::Select, UIChangeEventVariant::Select) => true,
        (UIRepresentationVariant::Checkbox, UIChangeEventVariant::Checkbox(_)) => true,
        (UIRepresentationVariant::TextBox, UIChangeEventVariant::TextBox(_)) => true,
        (UIRepresentationVariant::TextEntry, UIChangeEventVariant::TextEntry(_)) => true,
        (UIRepresentationVariant::Tab(_), UIChangeEventVariant::Tab(_)) => true,
        _ => false,
    }
}

/// The position of the first descriptor registered under `name`, scanning
/// in declaration order.
pub open spec fn spec_find_index(descs: Seq<DescriptorModel>, name: Seq<char>) -> Option<int>
    decreases descs.len(),
{
    if descs.len() == 0 {
        None
    } else if descs[0].field == name {
        Some(0int)
    } else {
        match spec_find_index(descs.drop_first(), name) {
            Some(i) => Some(i + 1),
            None => None,
        }
    }
}

/// The first-match scan finds a matching descriptor exactly when one
/// exists, and nothing earlier matches.
pub proof fn lemma_find_index(descs: Seq<DescriptorModel>, name: Seq<char>)
    ensures
        match spec_find_index(descs, name) {
            Some(i) => 0 <= i < descs.len() && descs[i].field == name && (forall|j: int|
                0 <= j < i ==> descs[j].field != name),
            None => forall|j: int| 0 <= j < descs.len() ==> descs[j].field != name,
        },
    decreases descs.len(),
{
    if descs.len() != 0 && descs[0].field != name {
        lemma_find_index(descs.drop_first(), name);
        assert forall|j: int| 0 <= j < descs.len() && descs[j].field == name implies
            spec_find_index(descs, name) is Some by {
            assert(descs.drop_first()[j - 1] == descs[j]);
        }
        match spec_find_index(descs, name) {
            Some(i) => {
                assert forall|j: int| 0 < j < i implies descs[j].field != name by {
                    assert(descs.drop_first()[j - 1] == descs[j]);
                }
            },
            None => {},
        }
    }
}

/// Find the first descriptor whose field name equals `name`.
pub fn find_descriptor(descs: &Vec<UIRepresentation>, name: &String) -> (r: Option<usize>)
    ensures
        match r {
            Some(i) => spec_find_index(registry_model(descs@), name@) == Some(i as int),
            None => spec_find_index(registry_model(descs@), name@) is None,
        },
{
    proof {
        lemma_find_index(registry_model(descs@), name@);
    }
    let mut i: usize = 0;
    while i < descs.len()
        invariant
            i <= descs.len(),
            forall|j: int| 0 <= j < i ==> #[trigger] registry_model(descs@)[j].field != name@,
            match spec_find_index(registry_model(descs@), name@) {
                Some(k) => 0 <= k < descs@.len() && registry_model(descs@)[k].field == name@
                    && (forall|j: int|
                    0 <= j < k ==> #[trigger] registry_model(descs@)[j].field != name@),
                None => forall|j: int|
                    0 <= j < descs@.len() ==> #[trigger] registry_model(descs@)[j].field
                        != name@,
            },
        decreases descs.len() - i,
    {
        if descs[i].field.eq(name) {
            proof {
                assert(registry_model(descs@)[i as int].field == name@);
            }
            return Some(i);
        }
        i = i + 1;
    }
    None
}

/// The outcome of applying one change event against one registry: the
/// typed error when lookup or the shape check fails, success otherwise.
pub open spec fn apply_outcome(descs: Seq<DescriptorModel>, event: UIChangeEvent) -> Result<
    (),
    UIChangableError,
> {
    match spec_find_index(descs, event.field@) {
        None => Err(UIChangableError::InvalidField),
        Some(i) => if payload_matches(descs[i].variant, event.variant) {
            Ok(())
        } else {
            Err(UIChangableError::WrongType)
        },
    }
}

/// A record instance that accepts change events.
///
/// `ui_change` is a single-step transaction: it either writes the event's
/// payload into the named field and succeeds, or fails with the typed
/// error that [`apply_outcome`] assigns and leaves the instance exactly
/// as it was.
pub trait UIChangable: Sized {
    /// The well-formedness every instance maintains.
    spec fn ui_inv(&self) -> bool;

    /// The descriptor registry governing this instance.
    spec fn ui_descriptors(&self) -> Seq<DescriptorModel>;

    /// The current value of the field registered under `name`, as a
    /// payload-shaped value.
    spec fn ui_value(&self, name: Seq<char>) -> UIChangeEventVariant;

    /// Apply one change event to this instance.
    fn ui_change(&mut self, event: UIChangeEvent) -> (r: Result<(), UIChangableError>)
        requires
            old(self).ui_inv(),
        ensures
            final(self).ui_inv(),
            final(self).ui_descriptors() == old(self).ui_descriptors(),
            r == apply_outcome(old(self).ui_descriptors(), event),
            r is Ok ==> final(self).ui_value(event.field@) == event.variant,
            r is Ok ==> forall|n: Seq<char>|
                n != event.field@ ==> final(self).ui_value(n) == old(self).ui_value(n),
            r is Err ==> *final(self) == *old(self),
    ;
}

} // verus!
