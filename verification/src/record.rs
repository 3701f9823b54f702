//! A record instance driven by a descriptor registry.
//!
//! Where a record type's fields are declared through registration rather
//! than generated accessors, an instance is the registry plus one
//! payload-shaped value per descriptor, in registry order. Change events
//! are applied against it with the dispatch semantics of
//! [`crate::change`].

use vstd::pervasive::VecAdditionalExecFns;
use vstd::prelude::*;

use crate::change::UIChangable;
use crate::change::UIChangableError;
use crate::change::UIChangeEvent;
use crate::change::UIChangeEventVariant;
use crate::change::find_descriptor;
use crate::change::lemma_find_index;
use crate::change::payload_matches;
use crate::change::spec_find_index;
use crate::change::variant_matches;
use crate::representation::DescriptorModel;
use crate::representation::UIRepresentation;
use crate::representation::registry_model;

verus! {

broadcast use crate::representation::group_registry_model;

/// Whether `vals` carries one matching-shaped value per descriptor.
pub open spec fn values_match(descs: Seq<DescriptorModel>, vals: Seq<UIChangeEventVariant>) -> bool {
    vals.len() == descs.len() && (forall|i: int|
        0 <= i < descs.len() ==> payload_matches(descs[i].variant, #[trigger] vals[i]))
}

/// A record instance: a descriptor registry and one payload-shaped value
/// per descriptor, in registry order.
#[derive(Debug)]
pub struct UIRecord {
    descriptors: Vec<UIRepresentation>,
    values: Vec<UIChangeEventVariant>,
}

impl UIRecord {
    /// The registry's view.
    pub closed spec fn descs(&self) -> Seq<DescriptorModel> {
        registry_model(self.descriptors@)
    }

    /// The field values, in registry order.
    pub closed spec fn vals(&self) -> Seq<UIChangeEventVariant> {
        self.values@
    }

    /// Every instance keeps one matching-shaped value per descriptor.
    pub open spec fn wf(&self) -> bool {
        values_match(self.descs(), self.vals())
    }

    /// Make an instance from a registry and initial field values; refused
    /// when the values do not match the registry shape for shape.
    pub fn new(descriptors: Vec<UIRepresentation>, values: Vec<UIChangeEventVariant>) -> (r:
        Option<UIRecord>)
        ensures
            match r {
                Some(rec) => rec.wf() && rec.descs() == registry_model(descriptors@)
                    && rec.vals() == values@,
                None => !values_match(registry_model(descriptors@), values@),
            },
    {
        if values.len() != descriptors.len() {
            return None;
        }
        let mut i: usize = 0;
        while i < descriptors.len()
            invariant
                i <= descriptors.len(),
                values@.len() == descriptors@.len(),
                forall|j: int|
                    0 <= j < i ==> payload_matches(
                        registry_model(descriptors@)[j].variant,
                        #[trigger] values@[j],
                    ),
            decreases descriptors.len() - i,
        {
            if !variant_matches(&descriptors[i].variant, &values[i]) {
                proof {
                    assert(!payload_matches(
                        registry_model(descriptors@)[i as int].variant,
                        values@[i as int],
                    ));
                }
                return None;
            }
            i = i + 1;
        }
        Some(UIRecord { descriptors, values })
    }

    /// The registry this instance is governed by.
    pub fn descriptors(&self) -> (r: &Vec<UIRepresentation>)
        ensures
            registry_model(r@) == self.descs(),
    {
        &self.descriptors
    }

    /// Read the value of the field registered under `name`.
    pub fn value_of(&self, name: &String) -> (r: Option<&UIChangeEventVariant>)
        requires
            self.wf(),
        ensures
            match r {
                Some(v) => spec_find_index(self.descs(), name@) matches Some(i) && *v
                    == self.vals()[i],
                None => spec_find_index(self.descs(), name@) is None,
            },
    {
        proof {
            lemma_find_index(self.descs(), name@);
        }
        match find_descriptor(&self.descriptors, name) {
            Some(i) => Some(&self.values[i]),
            None => None,
        }
    }
}

impl UIChangable for UIRecord {
    open spec fn ui_inv(&self) -> bool {
        self.wf()
    }

    open spec fn ui_descriptors(&self) -> Seq<DescriptorModel> {
        self.descs()
    }

    open spec fn ui_value(&self, name: Seq<char>) -> UIChangeEventVariant {
        match spec_find_index(self.descs(), name) {
            Some(i) => self.vals()[i],
            None => arbitrary(),
        }
    }

    fn ui_change(&mut self, event: UIChangeEvent) -> (r: Result<(), UIChangableError>) {
        let ghost before = *old(self);
        match find_descriptor(&self.descriptors, &event.field) {
            None => Err(UIChangableError::InvalidField),
            Some(i) => {
                proof {
                    lemma_find_index(before.descs(), event.field@);
                }
                if variant_matches(&self.descriptors[i].variant, &event.variant) {
                    let ghost payload = event.variant;
                    self.values.set(i, event.variant);
                    proof {
                        assert forall|n: Seq<char>| n != event.field@ implies self.ui_value(n)
                            == before.ui_value(n) by {
                            lemma_find_index(before.descs(), n);
                            match spec_find_index(before.descs(), n) {
                                Some(j) => {
                                    assert(self.vals() == before.vals().update(
                                        i as int,
                                        payload,
                                    ));
                                },
                                None => {},
                            }
                        }
                    }
                    Ok(())
                } else {
                    Err(UIChangableError::WrongType)
                }
            },
        }
    }
}

} // verus!
