//! One labelled text input of the configuration form: which field it edits,
//! the caption beside it, and the text it currently holds.

use vstd::prelude::*;

verus! {

/// One input row of the configuration form.
#[derive(Debug)]
pub struct ConfigInput {
    pub id: String,
    pub label: String,
    pub value: String,
}

impl ConfigInput {
    /// An input row for the field named `id`, captioned `label` and holding
    /// `value`.
    pub fn new(id: String, label: String, value: String) -> (c: Self)
        ensures
            c.id == id,
            c.label == label,
            c.value == value,
    {
        ConfigInput { id, label, value }
    }
}

} // verus!
