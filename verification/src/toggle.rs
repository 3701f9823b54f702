//! A worked record type: one boolean field, opted in with an inferred
//! widget. Its impls are written out the way registration-driven code for
//! such a record reads, and carry the library's full dispatch contract.

use vstd::prelude::*;

use crate::change::UIChangable;
use crate::change::UIChangableError;
use crate::change::UIChangeEvent;
use crate::change::UIChangeEventVariant;
use crate::change::spec_find_index;
use crate::representation::DescriptorModel;
use crate::representation::UIRepresentation;
use crate::representation::UIRepresentationVariant;
use crate::representation::UIRepresented;
use crate::representation::VariantModel;
use crate::representation::registry_model;

verus! {

broadcast use crate::representation::group_registry_model;

/// A record with a single UI-visible boolean field, `enabled`, rendered
/// as a checkbox.
#[derive(Debug, Clone, Copy, PartialEq, Eq, Structural)]
pub struct Toggle {
    pub enabled: bool,
}

impl UIRepresented for Toggle {
    open spec fn spec_ui_representation() -> Seq<DescriptorModel> {
        seq![DescriptorModel { field: "enabled"@, variant: VariantModel::Checkbox }]
    }

    fn ui_representation() -> (r: Vec<UIRepresentation>) {
        let mut r: Vec<UIRepresentation> = Vec::new();
        r.push(
            UIRepresentation {
                field: "enabled".to_owned(),
                variant: UIRepresentationVariant::Checkbox,
            },
        );
        proof {
            assert(registry_model(r@) =~= Self::spec_ui_representation());
        }
        r
    }
}

impl UIChangable for Toggle {
    open spec fn ui_inv(&self) -> bool {
        true
    }

    open spec fn ui_descriptors(&self) -> Seq<DescriptorModel> {
        Self::spec_ui_representation()
    }

    open spec fn ui_value(&self, name: Seq<char>) -> UIChangeEventVariant {
        if name == "enabled"@ {
            UIChangeEventVariant::Checkbox(self.enabled)
        } else {
            arbitrary()
        }
    }

    fn ui_change(&mut self, event: UIChangeEvent) -> (r: Result<(), UIChangableError>) {
        proof {
            let descs = Self::spec_ui_representation();
            assert(descs.drop_first() =~= Seq::<DescriptorModel>::empty());
            assert(spec_find_index(descs.drop_first(), event.field@) is None);
        }
        let enabled_name: String = "enabled".to_owned();
        if event.field.eq(&enabled_name) {
            match event.variant {
                UIChangeEventVariant::Checkbox(value) => {
                    self.enabled = value;
                    Ok(())
                },
                _ => Err(UIChangableError::WrongType),
            }
        } else {
            Err(UIChangableError::InvalidField)
        }
    }
}

} // verus!
