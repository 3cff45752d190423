//! The extraction configurations, by name.

use vstd::prelude::*;
use vstd::string::*;

pub mod controls;
pub mod extraction_manager;
pub mod layout;
pub mod results;

pub use extraction_manager::ExtractionManager;

use crate::text::text_eq;
use extraction_manager::ManagerView;

verus! {

/// How the message for an unknown configuration begins; the name that was
/// asked for follows.
pub open spec fn not_found_prefix() -> Seq<char> {
    "Could not find data extraction configuration for "@
}

/// The configuration that a name stands for.
pub open spec fn configuration(name: Seq<char>) -> Option<ManagerView> {
    if name == "results_botanacor_micro"@ {
        Some(ManagerView::RowGrain(results::botanacor_micro::botanacor_micro_plan()))
    } else if name == "results_botanacor_pesticides"@ {
        Some(ManagerView::RowGrain(results::botanacor_pesticides::botanacor_pesticides_plan()))
    } else if name == "results_agricor_micro"@ {
        Some(ManagerView::RowGrain(results::agricor_micro::agricor_micro_plan()))
    } else if name == "results_agricor_potency"@ {
        Some(ManagerView::RowGrain(results::agricor_potency::agricor_potency_plan()))
    } else if name == "controls_agricor_potency"@ {
        Some(ManagerView::FileGrain(controls::agricor_potency::agricor_potency_controls_plan()))
    } else {
        None
    }
}

/// Builds the configuration that a name stands for. A name that stands for
/// none is refused with a message that ends in the name.
pub fn get_extractors(extractors_name: &str) -> (r: Result<ExtractionManager, String>)
    ensures
        match r {
            Ok(manager) => configuration(extractors_name@) == Some(manager@) && manager@.wf(),
            Err(message) => configuration(extractors_name@) is None && message@
                == not_found_prefix() + extractors_name@,
        },
{
    if text_eq(extractors_name, "results_botanacor_micro") {
        Ok(results::botanacor_micro::get_extractors())
    } else if text_eq(extractors_name, "results_botanacor_pesticides") {
        Ok(results::botanacor_pesticides::get_extractors())
    } else if text_eq(extractors_name, "results_agricor_micro") {
        Ok(results::agricor_micro::get_extractors())
    } else if text_eq(extractors_name, "results_agricor_potency") {
        Ok(results::agricor_potency::get_extractors())
    } else if text_eq(extractors_name, "controls_agricor_potency") {
        Ok(controls::agricor_potency::get_extractors())
    } else {
        let mut message = String::from_str("Could not find data extraction configuration for ");
        message.append(extractors_name);
        Err(message)
    }
}

} // verus!
