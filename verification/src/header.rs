use vstd::prelude::*;

use colored::Colorize;

use crate::text::{dashes, spec_repeat};
use crate::{spec_opt_view, ErrorKind, FriendlyError};

verus! {

/// The total visual width of a plain header line.
pub const HEADER_LENGTH: usize = 80;

/// The label naming a diagnostic's severity.
pub open spec fn spec_label_text(kind: ErrorKind) -> Seq<char> {
    match kind {
        ErrorKind::Error => "Error"@,
        ErrorKind::Warning => "Warning"@,
        ErrorKind::Improvement => "Improvement"@,
        ErrorKind::CodeStyle => "Code style"@,
    }
}

/// The uncolored label part of the header: three dashes, the severity label,
/// and the error code in parentheses when one was configured.
pub open spec fn spec_plain_label(kind: ErrorKind, code: Option<Seq<char>>) -> Seq<char> {
    "--- "@ + spec_label_text(kind) + (match code {
        None => Seq::<char>::empty(),
        Some(c) => "("@ + c + ")"@,
    })
}

/// The title part of the header: a colon and the title, or nothing.
pub open spec fn spec_title_part(title: Option<Seq<char>>) -> Seq<char> {
    match title {
        None => Seq::<char>::empty(),
        Some(t) => ": "@ + t,
    }
}

/// The whole plain header line: label, title, one space, then dashes padding
/// the line to the fixed total width (none when label and title already
/// exceed it).
pub open spec fn spec_plain_header(
    kind: ErrorKind,
    code: Option<Seq<char>>,
    title: Option<Seq<char>>,
) -> Seq<char> {
    let label = spec_plain_label(kind, code);
    let title_part = spec_title_part(title);
    let used = label.len() + title_part.len() + 1;
    label + title_part + " "@ + spec_repeat(
        '-',
        if used <= HEADER_LENGTH {
            (HEADER_LENGTH - used) as nat
        } else {
            0
        },
    )
}

/// Relies on colored's `Colorize::red` and `bold` for `&str`, and on
/// `ColoredString`'s `Display` impl: styles the text for a terminal. Whether
/// escape codes are added depends on the process's color detection, so
/// nothing is promised of the result.
#[verifier::external_body]
fn style_red_bold(s: String) -> String {
    s.as_str().red().bold().to_string()
}

/// Relies on colored's `Colorize::yellow` and `bold` for `&str`, and on
/// `ColoredString`'s `Display` impl: styles the text for a terminal. Whether
/// escape codes are added depends on the process's color detection, so
/// nothing is promised of the result.
#[verifier::external_body]
fn style_yellow_bold(s: String) -> String {
    s.as_str().yellow().bold().to_string()
}

/// Relies on colored's `Colorize::cyan` and `bold` for `&str`, and on
/// `ColoredString`'s `Display` impl: styles the text for a terminal. Whether
/// escape codes are added depends on the process's color detection, so
/// nothing is promised of the result.
#[verifier::external_body]
fn style_cyan_bold(s: String) -> String {
    s.as_str().cyan().bold().to_string()
}

fn get_label(kind: &ErrorKind) -> (r: String)
    ensures
        r@ == spec_label_text(*kind),
{
    match kind {
        ErrorKind::Error => "Error".to_owned(),
        ErrorKind::Warning => "Warning".to_owned(),
        ErrorKind::Improvement => "Improvement".to_owned(),
        ErrorKind::CodeStyle => "Code style".to_owned(),
    }
}

/// Styles the label by severity; the result is for a terminal and nothing is
/// known of its exact characters.
fn colorize_label(string: String, kind: &ErrorKind) -> String {
    match kind {
        ErrorKind::Error => style_red_bold(string),
        ErrorKind::Warning => style_yellow_bold(string),
        ErrorKind::Improvement => style_cyan_bold(string),
        ErrorKind::CodeStyle => style_cyan_bold(string),
    }
}

impl FriendlyError {
    /// Appends the header's label (colored when enabled) and reports the
    /// label's plain visual width.
    fn append_label(&mut self) -> (r: usize)
        ensures
            final(self).data == old(self).data,
            r as nat == spec_plain_label(
                old(self).data.kind,
                spec_opt_view(old(self).data.error_code),
            ).len(),
            !old(self).data.colorize ==> final(self).output@ == old(self).output@
                + spec_plain_label(old(self).data.kind, spec_opt_view(old(self).data.error_code)),
    {
        let mut label = String::new();
        label.append("--- ");
        let text = get_label(&self.data.kind);
        label.append(text.as_str());
        match &self.data.error_code {
            Some(code) => {
                label.append("(");
                label.append(code.as_str());
                label.append(")");
            },
            None => {},
        }
        proof {
            assert(label@ =~= spec_plain_label(
                self.data.kind,
                spec_opt_view(self.data.error_code),
            ));
        }
        let length = label.as_str().unicode_len();
        if self.data.colorize {
            let colored_label = colorize_label(label, &self.data.kind);
            self.output.append(colored_label.as_str());
        } else {
            self.output.append(label.as_str());
        }
        length
    }

    /// Appends the header's title part and reports its visual width.
    fn append_title(&mut self) -> (r: usize)
        ensures
            final(self).data == old(self).data,
            r as nat == spec_title_part(spec_opt_view(old(self).data.title)).len(),
            final(self).output@ == old(self).output@ + spec_title_part(
                spec_opt_view(old(self).data.title),
            ),
    {
        let mut part = String::new();
        match &self.data.title {
            Some(title) => {
                part.append(": ");
                part.append(title.as_str());
            },
            None => {},
        }
        proof {
            assert(part@ =~= spec_title_part(spec_opt_view(self.data.title)));
        }
        let length = part.as_str().unicode_len();
        self.output.append(part.as_str());
        length
    }

    /// Appends the header line: severity label (colored when enabled), error
    /// code, title, and dashes padding the plain line to the fixed width.
    pub fn print_header(&mut self)
        ensures
            final(self).data == old(self).data,
            !old(self).data.colorize ==> final(self).output@ == old(self).output@
                + spec_plain_header(
                old(self).data.kind,
                spec_opt_view(old(self).data.error_code),
                spec_opt_view(old(self).data.title),
            ),
    {
        let label_length = self.append_label();
        let title_length = self.append_title();
        self.output.append(" ");
        let mut remaining: usize = HEADER_LENGTH;
        remaining = if remaining >= label_length {
            remaining - label_length
        } else {
            0
        };
        remaining = if remaining >= title_length {
            remaining - title_length
        } else {
            0
        };
        remaining = if remaining >= 1 {
            remaining - 1
        } else {
            0
        };
        let padding = dashes(remaining);
        self.output.append(padding.as_str());
        proof {
            if !old(self).data.colorize {
                assert(self.output@ =~= old(self).output@ + spec_plain_header(
                    old(self).data.kind,
                    spec_opt_view(old(self).data.error_code),
                    spec_opt_view(old(self).data.title),
                ));
            }
        }
    }
}

} // verus!
