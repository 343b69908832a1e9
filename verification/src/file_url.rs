use vstd::prelude::*;

use crate::text::{spec_digits, usize_string};
use crate::{spec_append_with_blank, spec_opt_view, FriendlyError};

verus! {

/// The file-position section appended to `cur`: `path:line:column`, present
/// only when all three parts were configured.
pub open spec fn spec_file_url_section(
    cur: Seq<char>,
    fp: Option<Seq<char>>,
    line: Option<usize>,
    column: Option<usize>,
) -> Seq<char> {
    if fp is None || line is None || column is None {
        cur
    } else {
        spec_append_with_blank(
            cur,
            fp->0 + ":"@ + spec_digits(line->0 as nat) + ":"@ + spec_digits(column->0 as nat),
        )
    }
}

impl FriendlyError {
    /// Appends the configured file position, when path, line and column are
    /// all present.
    pub fn print_file_url(&mut self)
        ensures
            final(self).data == old(self).data,
            final(self).output@ == spec_file_url_section(
                old(self).output@,
                spec_opt_view(old(self).data.file_path),
                old(self).data.line_number,
                old(self).data.column_start,
            ),
    {
        if self.data.file_path.is_none() || self.data.line_number.is_none()
            || self.data.column_start.is_none() {
            return ;
        }
        self.add_empty_line();
        let file_path = match &self.data.file_path {
            Some(p) => p.clone(),
            None => String::new(),
        };
        self.output.append(file_path.as_str());
        self.output.append(":");
        let line_number = match self.data.line_number {
            Some(l) => l,
            None => 0,
        };
        let line_text = usize_string(line_number);
        self.output.append(line_text.as_str());
        self.output.append(":");
        let column_start = match self.data.column_start {
            Some(c) => c,
            None => 0,
        };
        let column_text = usize_string(column_start);
        self.output.append(column_text.as_str());
        proof {
            assert(self.output@ =~= spec_file_url_section(
                old(self).output@,
                spec_opt_view(old(self).data.file_path),
                old(self).data.line_number,
                old(self).data.column_start,
            ));
        }
    }
}

} // verus!
