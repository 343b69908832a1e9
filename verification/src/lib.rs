use vstd::prelude::*;

mod code_snippet;
mod description;
mod doc_url;
mod file_url;
mod header;
mod print_snippets;
mod summary;
mod text;

pub use code_snippet::{
    CalculatedFieldError, CalculatedFieldResult, FriendlyCodeSnippet, FriendlyCodeSnippetError,
    HighlightKind, get_blank_line_prefix, get_digit_count, get_line_number_string,
    lemma_build_like, lemma_build_misordered, lemma_build_missing_end,
    lemma_build_missing_start, lemma_indent_size_bounds, lemma_line_start_unique,
    lemma_resolve_line_in_range, lemma_resolve_line_out_of_range, spec_build, spec_calculated,
    spec_caption_line, spec_indent_size, spec_is_line_start, spec_location_line, spec_max_nat,
    spec_newline_count, spec_offset_or_zero, spec_opt_view, spec_resolve_line, spec_resolved,
    spec_resolve_from, spec_snip_like, spec_total_lines, spec_validate,
};
pub use header::spec_plain_header;
pub use print_snippets::{spec_run_snippets, spec_snippets_verdict};
pub use text::{spec_digit_count, spec_digits, spec_repeat, spec_spaces};

verus! {

/// The severity of a whole diagnostic.
#[derive(PartialEq, Eq, Structural, Debug, Clone, Copy)]
pub enum ErrorKind {
    Error,
    Warning,
    Improvement,
    CodeStyle,
}

/// A failure of assembling a diagnostic: one of its snippets could not be
/// built.
#[derive(PartialEq, Eq, Structural, Debug, Clone, Copy)]
pub enum FriendlyErrorError {
    CodeSnippetError(FriendlyCodeSnippetError),
}

/// Everything a diagnostic is configured with before it is rendered.
#[derive(Debug)]
pub struct ErrorData {
    pub code_snippets: Vec<FriendlyCodeSnippet>,
    pub description: Option<String>,
    pub doc_url: Option<String>,
    pub error_code: Option<String>,
    pub kind: ErrorKind,
    pub summary: Option<String>,
    pub title: Option<String>,
    pub file_path: Option<String>,
    pub line_number: Option<usize>,
    pub column_start: Option<usize>,
    pub colorize: bool,
}

/// A diagnostic under assembly: its configuration plus the text rendered so
/// far.
#[derive(Debug)]
pub struct FriendlyError {
    pub data: ErrorData,
    pub output: String,
}

/// `s` appended to `cur`, separated by one blank line unless `cur` is empty.
pub open spec fn spec_append_with_blank(cur: Seq<char>, s: Seq<char>) -> Seq<char> {
    if cur.len() == 0 {
        cur + s
    } else {
        cur + "\n\n"@ + s
    }
}

/// An optional section appended to `cur`; nothing when the section is absent.
pub open spec fn spec_with_section(cur: Seq<char>, sec: Option<Seq<char>>) -> Seq<char> {
    match sec {
        None => cur,
        Some(s) => spec_append_with_blank(cur, s),
    }
}

/// The whole assembled diagnostic, appended to `cur` and rendered plain:
/// header, then each non-empty section (summary, description, each snippet,
/// doc url) separated by blank lines.
pub open spec fn spec_assembled_from(cur: Seq<char>, data: ErrorData) -> Seq<char> {
    let s0 = cur + spec_plain_header(
        data.kind,
        spec_opt_view(data.error_code),
        spec_opt_view(data.title),
    );
    let s1 = spec_with_section(s0, spec_opt_view(data.summary));
    let s2 = spec_with_section(s1, spec_opt_view(data.description));
    let s3 = spec_run_snippets(s2, data.code_snippets@).0;
    crate::doc_url::spec_doc_url_section(s3, spec_opt_view(data.doc_url))
}

/// A diagnostic as `new` hands it out: nothing configured, severity `Error`,
/// plain output, nothing rendered.
pub open spec fn spec_fresh(r: FriendlyError) -> bool {
    &&& r.data.code_snippets@ == Seq::<FriendlyCodeSnippet>::empty()
    &&& r.data.description is None
    &&& r.data.doc_url is None
    &&& r.data.error_code is None
    &&& r.data.kind == ErrorKind::Error
    &&& r.data.summary is None
    &&& r.data.title is None
    &&& r.data.file_path is None
    &&& r.data.line_number is None
    &&& r.data.column_start is None
    &&& r.data.colorize == false
    &&& r.output@ == Seq::<char>::empty()
}

impl FriendlyError {
    /// A fresh diagnostic with nothing configured.
    pub fn new() -> (r: FriendlyError)
        ensures
            spec_fresh(r),
    {
        FriendlyError {
            data: ErrorData {
                code_snippets: Vec::new(),
                description: None,
                doc_url: None,
                error_code: None,
                kind: ErrorKind::Error,
                summary: None,
                title: None,
                file_path: None,
                line_number: None,
                column_start: None,
                colorize: false,
            },
            output: String::new(),
        }
    }

    /// Attaches one more snippet, to be rendered in order during `build`.
    pub fn add_code_snippet(self, code_snippet: FriendlyCodeSnippet) -> (r: Self)
        ensures
            r.data.code_snippets@ == self.data.code_snippets@.push(code_snippet),
            r == (FriendlyError {
                data: (ErrorData { code_snippets: r.data.code_snippets, ..self.data }),
                output: self.output,
            }),
    {
        let mut s = self;
        s.data.code_snippets.push(code_snippet);
        s
    }

    pub fn description(self, description: &str) -> (r: Self)
        ensures
            r.data.description is Some,
            r.data.description->0@ == description@,
            r == (FriendlyError {
                data: (ErrorData { description: r.data.description, ..self.data }),
                output: self.output,
            }),
    {
        let mut s = self;
        s.data.description = Some(description.to_owned());
        s
    }

    pub fn doc_url(self, url: &str) -> (r: Self)
        ensures
            r.data.doc_url is Some,
            r.data.doc_url->0@ == url@,
            r == (FriendlyError {
                data: (ErrorData { doc_url: r.data.doc_url, ..self.data }),
                output: self.output,
            }),
    {
        let mut s = self;
        s.data.doc_url = Some(url.to_owned());
        s
    }

    pub fn error_code(self, code: &str) -> (r: Self)
        ensures
            r.data.error_code is Some,
            r.data.error_code->0@ == code@,
            r == (FriendlyError {
                data: (ErrorData { error_code: r.data.error_code, ..self.data }),
                output: self.output,
            }),
    {
        let mut s = self;
        s.data.error_code = Some(code.to_owned());
        s
    }

    pub fn kind(self, kind: ErrorKind) -> (r: Self)
        ensures
            r == (FriendlyError {
                data: (ErrorData { kind: kind, ..self.data }),
                output: self.output,
            }),
    {
        let mut s = self;
        s.data.kind = kind;
        s
    }

    pub fn summary(self, summary: &str) -> (r: Self)
        ensures
            r.data.summary is Some,
            r.data.summary->0@ == summary@,
            r == (FriendlyError {
                data: (ErrorData { summary: r.data.summary, ..self.data }),
                output: self.output,
            }),
    {
        let mut s = self;
        s.data.summary = Some(summary.to_owned());
        s
    }

    pub fn title(self, title: &str) -> (r: Self)
        ensures
            r.data.title is Some,
            r.data.title->0@ == title@,
            r == (FriendlyError {
                data: (ErrorData { title: r.data.title, ..self.data }),
                output: self.output,
            }),
    {
        let mut s = self;
        s.data.title = Some(title.to_owned());
        s
    }

    pub fn file_path(self, file_path: &str) -> (r: Self)
        ensures
            r.data.file_path is Some,
            r.data.file_path->0@ == file_path@,
            r == (FriendlyError {
                data: (ErrorData { file_path: r.data.file_path, ..self.data }),
                output: self.output,
            }),
    {
        let mut s = self;
        s.data.file_path = Some(file_path.to_owned());
        s
    }

    pub fn line_number(self, line_number: usize) -> (r: Self)
        ensures
            r == (FriendlyError {
                data: (ErrorData { line_number: Some(line_number), ..self.data }),
                output: self.output,
            }),
    {
        let mut s = self;
        s.data.line_number = Some(line_number);
        s
    }

    pub fn column_start(self, column_start: usize) -> (r: Self)
        ensures
            r == (FriendlyError {
                data: (ErrorData { column_start: Some(column_start), ..self.data }),
                output: self.output,
            }),
    {
        let mut s = self;
        s.data.column_start = Some(column_start);
        s
    }

    /// Switches terminal colors for the header label on or off; rendering is
    /// plain unless enabled.
    pub fn colorize(self, enabled: bool) -> (r: Self)
        ensures
            r == (FriendlyError {
                data: (ErrorData { colorize: enabled, ..self.data }),
                output: self.output,
            }),
    {
        let mut s = self;
        s.data.colorize = enabled;
        s
    }

    /// Replaces the text rendered so far.
    pub fn set_output(self, output: &str) -> (r: Self)
        ensures
            r.output@ == output@,
            r == (FriendlyError { data: self.data, output: r.output }),
    {
        let mut s = self;
        s.output = output.to_owned();
        s
    }

    /// Separates the next section from what is already rendered by one blank
    /// line; at the very top nothing is added.
    pub fn add_empty_line(&mut self)
        ensures
            final(self).data == old(self).data,
            final(self).output@ == (if old(self).output@.len() == 0 {
                old(self).output@
            } else {
                old(self).output@ + "\n\n"@
            }),
    {
        if !self.output.as_str().is_empty() {
            self.output.append("\n\n");
        }
    }

    /// Renders the whole diagnostic: the header, then each configured section
    /// and snippet. Fails with the first snippet's failure, wrapped.
    pub fn build(self) -> (r: Result<String, FriendlyErrorError>)
        ensures
            r is Ok <==> spec_snippets_verdict(self.data.code_snippets@) is Ok,
            r is Err ==> spec_snippets_verdict(self.data.code_snippets@) == Err::<
                bool,
                FriendlyErrorError,
            >(r->Err_0),
            (r is Ok && !self.data.colorize) ==> r->Ok_0@ == spec_assembled_from(
                self.output@,
                self.data,
            ),
    {
        let mut this = self;
        this.print_header();
        this.print_summary();
        this.print_description();
        let ghost cur = this.output@;
        let snippet_result = this.print_code_snippets();
        proof {
            crate::print_snippets::lemma_run_snippets_verdict(cur, self.data.code_snippets@);
        }
        match snippet_result {
            Err(e) => {
                return Err(e);
            },
            Ok(_) => {},
        }
        this.print_doc_url();
        Ok(this.output)
    }
}

impl Default for FriendlyError {
    /// The same fresh diagnostic that `new` hands out.
    fn default() -> (r: Self)
        ensures
            spec_fresh(r),
    {
        Self::new()
    }
}

} // verus!
