//! The header shown above a command's input form: a description line with a
//! run button; only the carried description is the bridge's business.

use vstd::prelude::*;

verus! {

/// Header of a command form.
pub struct HeaderForm {
    pub command_description: String,
}

impl HeaderForm {
    /// A header carrying the given description.
    pub fn new(command_description: String) -> (form: HeaderForm)
        ensures
            form.command_description@ == command_description@,
    {
        HeaderForm { command_description }
    }
}

} // verus!
