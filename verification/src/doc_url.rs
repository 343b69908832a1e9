use vstd::prelude::*;

use crate::{spec_append_with_blank, spec_opt_view, FriendlyError};

verus! {

/// The doc-url section appended to `cur`: a fixed lead-in and the url, or
/// nothing when no url was configured.
pub open spec fn spec_doc_url_section(cur: Seq<char>, url: Option<Seq<char>>) -> Seq<char> {
    match url {
        None => cur,
        Some(u) => spec_append_with_blank(cur, "To learn more, read the docs at "@ + u),
    }
}

impl FriendlyError {
    /// Appends the pointer to further documentation, when one was configured.
    pub fn print_doc_url(&mut self)
        ensures
            final(self).data == old(self).data,
            final(self).output@ == spec_doc_url_section(
                old(self).output@,
                spec_opt_view(old(self).data.doc_url),
            ),
    {
        let section = match &self.data.doc_url {
            Some(url) => Some(url.clone()),
            None => None,
        };
        match section {
            Some(url) => {
                self.add_empty_line();
                self.output.append("To learn more, read the docs at ");
                self.output.append(url.as_str());
            },
            None => {},
        }
    }
}

} // verus!
