use vstd::prelude::*;

use crate::{spec_opt_view, spec_with_section, FriendlyError};

verus! {

impl FriendlyError {
    /// Appends the configured description as a section of its own.
    pub fn print_description(&mut self)
        ensures
            final(self).data == old(self).data,
            final(self).output@ == spec_with_section(
                old(self).output@,
                spec_opt_view(old(self).data.description),
            ),
    {
        let section = match &self.data.description {
            Some(text) => Some(text.clone()),
            None => None,
        };
        match section {
            Some(text) => {
                self.add_empty_line();
                self.output.append(text.as_str());
            },
            None => {},
        }
    }
}

} // verus!
