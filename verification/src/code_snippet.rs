use vstd::prelude::*;

use crate::text::{
    spec_digit_count, spec_digits, spec_repeat, spec_spaces, spaces, usize_string,
};

verus! {

/// The severity attached to a highlighted region; purely cosmetic, carried
/// through to the rendered output.
#[derive(PartialEq, Eq, Structural, Debug, Clone, Copy)]
pub enum HighlightKind {
    Error,
    Warning,
    Info,
}

/// The state of a derived field: either it was never computed, or the
/// computation found the requested position invalid.
#[derive(PartialEq, Eq, Structural, Debug, Clone, Copy)]
pub enum CalculatedFieldError {
    NotCalculated,
    Invalid,
}

pub type CalculatedFieldResult<T> = Result<T, CalculatedFieldError>;

/// The failures a snippet build can report; all are recoverable user-input
/// problems, never panics.
#[derive(PartialEq, Eq, Structural, Debug, Clone, Copy)]
pub enum FriendlyCodeSnippetError {
    InvalidStartPosition,
    InvalidEndPosition,
    MissingStartPosition,
    MissingEndPosition,
}

/// Configuration for one highlighted region of a source text, together with
/// the fields derived from it during a build.
#[derive(Debug)]
pub struct FriendlyCodeSnippet {
    pub file_contents: String,
    pub file_path: Option<String>,
    pub index_start: Option<usize>,
    pub index_end: Option<usize>,
    pub line_start: Option<usize>,
    pub line_end: Option<usize>,
    pub kind: HighlightKind,
    pub caption: Option<String>,
    pub line_start_start_index: CalculatedFieldResult<usize>,
    pub line_end_start_index: CalculatedFieldResult<usize>,
    pub indent_size: CalculatedFieldResult<usize>,
}

/// The scan of the position resolver: walking `text` from position `i` with a
/// 1-based running line counter `counter`, the offset at which the counter
/// first equals `target`.
pub open spec fn spec_resolve_from(text: Seq<char>, i: int, counter: nat, target: nat) -> Option<
    int,
>
    decreases text.len() - i,
{
    if i < 0 || i >= text.len() {
        None
    } else if counter == target {
        Some(i)
    } else if text[i] == '\n' {
        spec_resolve_from(text, i + 1, counter + 1, target)
    } else {
        spec_resolve_from(text, i + 1, counter, target)
    }
}

/// The offset at which 1-based line `line` of `text` begins, or `None` when
/// there is no such line (line 0, a line past the end, or an empty text).
pub open spec fn spec_resolve_line(text: Seq<char>, line: nat) -> Option<int> {
    spec_resolve_from(text, 0, 1, line)
}

/// The number of newline characters in `text[0..i]`.
pub open spec fn spec_newline_count(text: Seq<char>, i: int) -> nat
    decreases i,
{
    if i <= 0 {
        0
    } else {
        spec_newline_count(text, i - 1) + if text[i - 1] == '\n' {
            1nat
        } else {
            0nat
        }
    }
}

/// The number of lines of `text` that have a first character: an empty text
/// has none, and a trailing newline does not start a new line.
pub open spec fn spec_total_lines(text: Seq<char>) -> nat {
    if text.len() == 0 {
        0
    } else {
        1 + spec_newline_count(text, text.len() - 1)
    }
}

/// `i` is the offset of the first character of 1-based line `n` in `text`.
pub open spec fn spec_is_line_start(text: Seq<char>, n: nat, i: int) -> bool {
    &&& n >= 1
    &&& 0 <= i < text.len()
    &&& spec_newline_count(text, i) == n - 1
    &&& (i == 0 || text[i - 1] == '\n')
}

/// What a derived field holds after resolution: `Invalid` when no line number
/// was supplied or the line does not exist, the line's start offset otherwise.
pub open spec fn spec_resolved(text: Seq<char>, line: Option<usize>) -> CalculatedFieldResult<
    usize,
> {
    match line {
        None => Err(CalculatedFieldError::Invalid),
        Some(l) => match spec_resolve_line(text, l as nat) {
            Some(i) => Ok(i as usize),
            None => Err(CalculatedFieldError::Invalid),
        },
    }
}

proof fn lemma_newline_count_monotonic(text: Seq<char>, a: int, b: int)
    requires
        a <= b,
    ensures
        spec_newline_count(text, a) <= spec_newline_count(text, b),
    decreases b - a,
{
    if a < b {
        lemma_newline_count_monotonic(text, a, b - 1);
    }
}

/// A scan whose counter has already passed the target never reports a match.
proof fn lemma_resolve_exceeds(text: Seq<char>, i: int, counter: nat, target: nat)
    requires
        counter > target,
    ensures
        spec_resolve_from(text, i, counter, target) is None,
    decreases text.len() - i,
{
    if 0 <= i < text.len() {
        if text[i] == '\n' {
            lemma_resolve_exceeds(text, i + 1, counter + 1, target);
        } else {
            lemma_resolve_exceeds(text, i + 1, counter, target);
        }
    }
}

/// Soundness of the scan: a reported offset lies in the text, has seen exactly
/// `target - counter` newlines since the scan's start, and either is the
/// scan's start itself (when the counter already matched) or directly follows
/// a newline.
proof fn lemma_resolve_from_sound(text: Seq<char>, i: int, counter: nat, target: nat)
    requires
        0 <= i,
        counter <= target,
        spec_resolve_from(text, i, counter, target) is Some,
    ensures
        ({
            let j = spec_resolve_from(text, i, counter, target)->0;
            &&& i <= j < text.len()
            &&& spec_newline_count(text, j) == spec_newline_count(text, i) + (target - counter)
            &&& ((j == i && counter == target) || (j > i && text[j - 1] == '\n'))
        }),
    decreases text.len() - i,
{
    if counter == target {
    } else {
        if text[i] == '\n' {
            lemma_resolve_from_sound(text, i + 1, counter + 1, target);
        } else {
            lemma_resolve_from_sound(text, i + 1, counter, target);
        }
    }
}

/// Completeness of the scan: while enough newlines remain before the last
/// character, the scan reports a match.
proof fn lemma_resolve_from_complete(text: Seq<char>, i: int, counter: nat, target: nat)
    requires
        0 <= i < text.len(),
        counter <= target,
        target - counter <= spec_newline_count(text, text.len() - 1) - spec_newline_count(
            text,
            i,
        ),
    ensures
        spec_resolve_from(text, i, counter, target) is Some,
    decreases text.len() - i,
{
    if counter == target {
    } else {
        assert(spec_newline_count(text, text.len() - 1) - spec_newline_count(text, i) >= 1);
        if i == text.len() - 1 {
            assert(false);
        }
        if text[i] == '\n' {
            lemma_resolve_from_complete(text, i + 1, counter + 1, target);
        } else {
            lemma_resolve_from_complete(text, i + 1, counter, target);
        }
    }
}

/// For every line number in range, the resolver reports exactly the offset of
/// the first character of that line; line 1 begins at offset 0.
pub proof fn lemma_resolve_line_in_range(text: Seq<char>, n: nat)
    requires
        text.len() > 0,
        1 <= n <= spec_total_lines(text),
    ensures
        spec_resolve_line(text, n) is Some,
        spec_is_line_start(text, n, spec_resolve_line(text, n)->0),
        n == 1 ==> spec_resolve_line(text, n) == Some(0int),
{
    lemma_resolve_from_complete(text, 0, 1, n);
    lemma_resolve_from_sound(text, 0, 1, n);
}

/// No text has a line 0, nor a line beyond its last.
pub proof fn lemma_resolve_line_out_of_range(text: Seq<char>)
    ensures
        spec_resolve_line(text, 0) is None,
        spec_resolve_line(text, spec_total_lines(text) + 1) is None,
{
    lemma_resolve_exceeds(text, 0, 1, 0);
    let t = spec_total_lines(text) + 1;
    if spec_resolve_line(text, t) is Some {
        lemma_resolve_from_sound(text, 0, 1, t);
        let j = spec_resolve_line(text, t)->0;
        lemma_newline_count_monotonic(text, j, text.len() - 1);
        assert(false);
    }
}

/// The first character of a line is uniquely determined.
pub proof fn lemma_line_start_unique(text: Seq<char>, n: nat, i: int, j: int)
    requires
        spec_is_line_start(text, n, i),
        spec_is_line_start(text, n, j),
    ensures
        i == j,
{
    if i < j {
        lemma_newline_count_monotonic(text, i, j - 1);
        assert(spec_newline_count(text, j) == spec_newline_count(text, j - 1) + 1);
    }
    if j < i {
        lemma_newline_count_monotonic(text, j, i - 1);
        assert(spec_newline_count(text, i) == spec_newline_count(text, i - 1) + 1);
    }
}

/// The scan of the position resolver over a borrowed text: the offset at
/// which the requested 1-based line begins, or `Invalid` when the line does
/// not exist.
fn resolve_line_offset(text: &String, line: usize) -> (r: CalculatedFieldResult<usize>)
    ensures
        r == spec_resolved(text@, Some(line)),
{
    let ghost t = text@;
    let n = text.as_str().unicode_len();
    if line == 0 {
        proof {
            lemma_resolve_exceeds(t, 0, 1, 0);
        }
        return Err(CalculatedFieldError::Invalid);
    }
    let mut line_count: usize = 1;
    let mut index: usize = 0;
    while index < n
        invariant
            0 <= index <= n,
            n == t.len(),
            t == text@,
            1 <= line,
            1 <= line_count <= line,
            spec_resolve_line(t, line as nat) == spec_resolve_from(
                t,
                index as int,
                line_count as nat,
                line as nat,
            ),
        decreases n - index,
    {
        if line_count == line {
            return Ok(index);
        }
        let c = text.as_str().get_char(index);
        if c == '\n' {
            line_count = line_count + 1;
        }
        index = index + 1;
    }
    Err(CalculatedFieldError::Invalid)
}

/// A derived field that has been through resolution: it never reports
/// `NotCalculated`.
pub open spec fn spec_calculated(r: CalculatedFieldResult<usize>) -> bool {
    match r {
        Err(CalculatedFieldError::NotCalculated) => false,
        _ => true,
    }
}

/// The verdict of validation, given a configuration whose derived fields have
/// been resolved. A side must be supplied in at least one coordinate form; a
/// supplied line number must have resolved; resolved start and end offsets
/// must be ordered.
pub open spec fn spec_validate(s: FriendlyCodeSnippet) -> Result<bool, FriendlyCodeSnippetError> {
    if s.line_start is None && s.index_start is None {
        Err(FriendlyCodeSnippetError::MissingStartPosition)
    } else if s.line_end is None && s.index_end is None {
        Err(FriendlyCodeSnippetError::MissingEndPosition)
    } else if s.line_start is Some && s.line_start_start_index == Err::<
        usize,
        CalculatedFieldError,
    >(CalculatedFieldError::Invalid) {
        Err(FriendlyCodeSnippetError::InvalidStartPosition)
    } else if s.line_end is Some && s.line_end_start_index == Err::<
        usize,
        CalculatedFieldError,
    >(CalculatedFieldError::Invalid) {
        Err(FriendlyCodeSnippetError::InvalidEndPosition)
    } else if s.line_start_start_index is Ok && s.line_end_start_index is Ok
        && s.line_start_start_index->Ok_0 > s.line_end_start_index->Ok_0 {
        Err(FriendlyCodeSnippetError::InvalidEndPosition)
    } else {
        Ok(true)
    }
}

/// A resolved offset, or 0 for a side whose line form was not usable; the
/// gutter width is derived from these.
pub open spec fn spec_offset_or_zero(r: CalculatedFieldResult<usize>) -> nat {
    match r {
        Ok(v) => v as nat,
        Err(_) => 0,
    }
}

pub open spec fn spec_max_nat(a: nat, b: nat) -> nat {
    if a >= b {
        a
    } else {
        b
    }
}

/// The gutter width: wide enough for the largest derived offset's digits plus
/// one separator column, never narrower than 4.
pub open spec fn spec_indent_size(longest: nat) -> nat {
    spec_max_nat(spec_digit_count(longest) + 1, 4)
}

pub open spec fn spec_opt_view(s: Option<String>) -> Option<Seq<char>> {
    match s {
        None => None,
        Some(x) => Some(x@),
    }
}

/// The location fields that were supplied, in order, separated by ':'.
pub open spec fn spec_location_body(
    fp: Option<Seq<char>>,
    ls: Option<usize>,
    ix: Option<usize>,
) -> Seq<char> {
    let a = match fp {
        Some(p) => p,
        None => Seq::<char>::empty(),
    };
    let b = match ls {
        Some(l) => if fp is Some {
            a + ":"@ + spec_digits(l as nat)
        } else {
            a + spec_digits(l as nat)
        },
        None => a,
    };
    match ix {
        Some(i) => if fp is Some || ls is Some {
            b + ":"@ + spec_digits(i as nat)
        } else {
            b + spec_digits(i as nat)
        },
        None => b,
    }
}

/// The location line: indent, the supplied fields joined by ':', and a
/// newline; nothing at all when no location field was supplied.
pub open spec fn spec_location_line(
    fp: Option<Seq<char>>,
    ls: Option<usize>,
    ix: Option<usize>,
    indent: nat,
) -> Seq<char> {
    if fp is None && ls is None && ix is None {
        Seq::<char>::empty()
    } else {
        spec_spaces(indent) + spec_location_body(fp, ls, ix) + "\n"@
    }
}

/// The caption line: two columns less indent, an arrow, the caption and a
/// newline; nothing when no caption was supplied.
pub open spec fn spec_caption_line(caption: Option<Seq<char>>, indent: nat) -> Seq<char> {
    match caption {
        None => Seq::<char>::empty(),
        Some(c) => spec_spaces(if indent >= 2 {
            (indent - 2) as nat
        } else {
            0
        }) + "--> "@ + c + "\n"@,
    }
}

/// The configuration after the resolve phase has filled both derived offsets.
pub open spec fn spec_after_resolution(s: FriendlyCodeSnippet) -> FriendlyCodeSnippet {
    FriendlyCodeSnippet {
        line_start_start_index: spec_resolved(s.file_contents@, s.line_start),
        line_end_start_index: spec_resolved(s.file_contents@, s.line_end),
        ..s
    }
}

/// The gutter width of a resolved configuration.
pub open spec fn spec_snippet_indent(s: FriendlyCodeSnippet) -> nat {
    spec_indent_size(
        spec_max_nat(
            spec_offset_or_zero(s.line_start_start_index),
            spec_offset_or_zero(s.line_end_start_index),
        ),
    )
}

/// The rendered block of a resolved, validated configuration: the location
/// line followed by the caption line.
pub open spec fn spec_snippet_output(s: FriendlyCodeSnippet) -> Seq<char> {
    spec_location_line(
        spec_opt_view(s.file_path),
        s.line_start,
        s.index_start,
        spec_snippet_indent(s),
    ) + spec_caption_line(spec_opt_view(s.caption), spec_snippet_indent(s))
}

/// What a whole build of a configuration produces: the rendered block, or the
/// first validation failure.
pub open spec fn spec_build(s: FriendlyCodeSnippet) -> Result<Seq<char>, FriendlyCodeSnippetError> {
    let r = spec_after_resolution(s);
    match spec_validate(r) {
        Err(e) => Err(e),
        Ok(_) => Ok(spec_snippet_output(r)),
    }
}

/// A number of at least two digits has strictly fewer digits than its value.
proof fn lemma_digit_count_lt(n: nat)
    requires
        n >= 10,
    ensures
        spec_digit_count(n) < n,
    decreases n,
{
    if n >= 100 {
        lemma_digit_count_lt(n / 10);
    } else {
        assert(n / 10 < 10);
        assert(spec_digit_count(n / 10) == 1);
    }
}

/// Counts the decimal digits of `number`.
pub fn get_digit_count(number: usize) -> (r: usize)
    ensures
        r as nat == spec_digit_count(number as nat),
{
    proof {
        if number >= 10 {
            lemma_digit_count_lt(number as nat);
        }
    }
    let mut n = number;
    let mut digits: usize = 1;
    while n >= 10
        invariant
            digits >= 1,
            digits as nat - 1 + spec_digit_count(n as nat) == spec_digit_count(number as nat),
            spec_digit_count(number as nat) < usize::MAX,
        decreases n,
    {
        digits = digits + 1;
        n = n / 10;
    }
    digits
}

/// A right-aligned line number followed by the gutter separator, e.g.
/// `"  1 | "`.
pub fn get_line_number_string(line_number: usize, indent: usize) -> (r: String)
    requires
        spec_digit_count(line_number as nat) + 1 <= indent,
    ensures
        r@ == spec_spaces((indent - 1 - spec_digit_count(line_number as nat)) as nat)
            + spec_digits(line_number as nat) + " | "@,
{
    let number = usize_string(line_number);
    let len = number.as_str().unicode_len();
    proof {
        crate::text::lemma_digits_len(line_number as nat);
    }
    let mut output = spaces(indent - 1 - len);
    output.append(number.as_str());
    output.append(" | ");
    output
}

/// The gutter of a line that carries no line number, e.g. `"    | "`.
pub fn get_blank_line_prefix(indent: usize) -> (r: String)
    ensures
        r@ == spec_spaces(indent as nat) + "| "@,
{
    let mut output = spaces(indent);
    output.append("| ");
    output
}

impl FriendlyCodeSnippet {
    /// Resolves the configured start line into the offset at which it begins,
    /// recording the outcome in `line_start_start_index`.
    pub fn calc_line_start_start_index(&mut self)
        ensures
            *final(self) == (FriendlyCodeSnippet {
                line_start_start_index: spec_resolved(
                    old(self).file_contents@,
                    old(self).line_start,
                ),
                ..*old(self)
            }),
    {
        match self.line_start {
            Some(line) => {
                let r = resolve_line_offset(&self.file_contents, line);
                self.line_start_start_index = r;
            },
            None => {
                self.line_start_start_index = Err(CalculatedFieldError::Invalid);
            },
        }
    }

    /// Resolves the configured end line into the offset at which it begins,
    /// recording the outcome in `line_end_start_index`.
    pub fn calc_line_end_start_index(&mut self)
        ensures
            *final(self) == (FriendlyCodeSnippet {
                line_end_start_index: spec_resolved(
                    old(self).file_contents@,
                    old(self).line_end,
                ),
                ..*old(self)
            }),
    {
        match self.line_end {
            Some(line) => {
                let r = resolve_line_offset(&self.file_contents, line);
                self.line_end_start_index = r;
            },
            None => {
                self.line_end_start_index = Err(CalculatedFieldError::Invalid);
            },
        }
    }

    /// A fresh configuration for one region of `file_contents`: no position,
    /// path or caption yet, an `Error` highlight, and no derived field
    /// computed.
    pub fn new(file_contents: String) -> (r: FriendlyCodeSnippet)
        ensures
            r == (FriendlyCodeSnippet {
                file_contents: file_contents,
                file_path: None,
                index_start: None,
                index_end: None,
                line_start: None,
                line_end: None,
                kind: HighlightKind::Error,
                caption: None,
                line_start_start_index: Err(CalculatedFieldError::NotCalculated),
                line_end_start_index: Err(CalculatedFieldError::NotCalculated),
                indent_size: Err(CalculatedFieldError::NotCalculated),
            }),
    {
        FriendlyCodeSnippet {
            file_contents,
            file_path: None,
            index_start: None,
            index_end: None,
            line_start: None,
            line_end: None,
            kind: HighlightKind::Error,
            caption: None,
            line_start_start_index: Err(CalculatedFieldError::NotCalculated),
            line_end_start_index: Err(CalculatedFieldError::NotCalculated),
            indent_size: Err(CalculatedFieldError::NotCalculated),
        }
    }

    pub fn set_file_path(self, file_path: &str) -> (r: Self)
        ensures
            r.file_path is Some,
            r.file_path->0@ == file_path@,
            r == (FriendlyCodeSnippet { file_path: r.file_path, ..self }),
    {
        let mut s = self;
        s.file_path = Some(file_path.to_owned());
        s
    }

    pub fn index_start(self, index_start: usize) -> (r: Self)
        ensures
            r == (FriendlyCodeSnippet { index_start: Some(index_start), ..self }),
    {
        let mut s = self;
        s.index_start = Some(index_start);
        s
    }

    pub fn index_end(self, index_end: usize) -> (r: Self)
        ensures
            r == (FriendlyCodeSnippet { index_end: Some(index_end), ..self }),
    {
        let mut s = self;
        s.index_end = Some(index_end);
        s
    }

    pub fn line_start(self, line_start: usize) -> (r: Self)
        ensures
            r == (FriendlyCodeSnippet { line_start: Some(line_start), ..self }),
    {
        let mut s = self;
        s.line_start = Some(line_start);
        s
    }

    pub fn line_end(self, line_end: usize) -> (r: Self)
        ensures
            r == (FriendlyCodeSnippet { line_end: Some(line_end), ..self }),
    {
        let mut s = self;
        s.line_end = Some(line_end);
        s
    }

    pub fn kind(self, kind: HighlightKind) -> (r: Self)
        ensures
            r == (FriendlyCodeSnippet { kind: kind, ..self }),
    {
        let mut s = self;
        s.kind = kind;
        s
    }

    pub fn caption(self, caption: &str) -> (r: Self)
        ensures
            r.caption is Some,
            r.caption->0@ == caption@,
            r == (FriendlyCodeSnippet { caption: r.caption, ..self }),
    {
        let mut s = self;
        s.caption = Some(caption.to_owned());
        s
    }

    /// Checks that the configured position is complete, resolvable and
    /// ordered; both derived offsets must have been resolved beforehand.
    pub fn validate_inputs(&self) -> (r: Result<bool, FriendlyCodeSnippetError>)
        requires
            spec_calculated(self.line_start_start_index),
            spec_calculated(self.line_end_start_index),
        ensures
            r == spec_validate(*self),
    {
        if self.line_start.is_none() && self.index_start.is_none() {
            return Err(FriendlyCodeSnippetError::MissingStartPosition);
        }
        if self.line_end.is_none() && self.index_end.is_none() {
            return Err(FriendlyCodeSnippetError::MissingEndPosition);
        }
        if self.line_start.is_some() {
            match self.line_start_start_index {
                Err(CalculatedFieldError::Invalid) => {
                    return Err(FriendlyCodeSnippetError::InvalidStartPosition);
                },
                Err(CalculatedFieldError::NotCalculated) => {
                    proof {
                        assert(false);
                    }
                    return Err(FriendlyCodeSnippetError::InvalidStartPosition);
                },
                Ok(_) => {},
            }
        }
        if self.line_end.is_some() {
            match self.line_end_start_index {
                Err(CalculatedFieldError::Invalid) => {
                    return Err(FriendlyCodeSnippetError::InvalidEndPosition);
                },
                Err(CalculatedFieldError::NotCalculated) => {
                    proof {
                        assert(false);
                    }
                    return Err(FriendlyCodeSnippetError::InvalidEndPosition);
                },
                Ok(_) => {},
            }
        }
        match (self.line_start_start_index, self.line_end_start_index) {
            (Ok(start), Ok(end)) => {
                if start > end {
                    return Err(FriendlyCodeSnippetError::InvalidEndPosition);
                }
            },
            _ => {},
        }
        Ok(true)
    }

    /// Derives the gutter width from the resolved offsets; both must have
    /// been resolved beforehand.
    pub fn calc_indent_size(&mut self)
        requires
            spec_calculated(old(self).line_start_start_index),
            spec_calculated(old(self).line_end_start_index),
        ensures
            *final(self) == (FriendlyCodeSnippet {
                indent_size: Ok(spec_snippet_indent(*old(self)) as usize),
                ..*old(self)
            }),
    {
        let a = match self.line_start_start_index {
            Ok(v) => v,
            Err(_) => 0,
        };
        let b = match self.line_end_start_index {
            Ok(v) => v,
            Err(_) => 0,
        };
        let longest_line_number = if a >= b {
            a
        } else {
            b
        };
        proof {
            if longest_line_number >= 10 {
                lemma_digit_count_lt(longest_line_number as nat);
            }
        }
        let digits = get_digit_count(longest_line_number);
        let candidate = digits + 1;
        let default_indent_size: usize = 4;
        self.indent_size = Ok(
            if candidate >= default_indent_size {
                candidate
            } else {
                default_indent_size
            },
        );
    }

    /// Renders the location line from the supplied fields and the derived
    /// gutter width.
    pub fn build_file_url(&self) -> (r: String)
        requires
            self.indent_size is Ok,
        ensures
            r@ == spec_location_line(
                spec_opt_view(self.file_path),
                self.line_start,
                self.index_start,
                self.indent_size->Ok_0 as nat,
            ),
    {
        let indent = match self.indent_size {
            Ok(i) => i,
            Err(_) => {
                proof {
                    assert(false);
                }
                0
            },
        };
        let mut output = spaces(indent);
        let mut has_contents = false;
        match &self.file_path {
            Some(file_path) => {
                output.append(file_path.as_str());
                has_contents = true;
            },
            None => {},
        }
        match self.line_start {
            Some(line_start) => {
                if has_contents {
                    output.append(":");
                }
                let number = usize_string(line_start);
                output.append(number.as_str());
                has_contents = true;
            },
            None => {},
        }
        match self.index_start {
            Some(index_start) => {
                if has_contents {
                    output.append(":");
                }
                let number = usize_string(index_start);
                output.append(number.as_str());
                has_contents = true;
            },
            None => {},
        }
        if !has_contents {
            return String::new();
        }
        output.append("\n");
        proof {
            assert(output@ =~= spec_location_line(
                spec_opt_view(self.file_path),
                self.line_start,
                self.index_start,
                indent as nat,
            ));
        }
        output
    }

    /// Renders the caption line, two columns left of the gutter.
    pub fn build_caption(&self) -> (r: String)
        requires
            self.indent_size is Ok,
            self.caption is Some ==> self.indent_size->Ok_0 >= 2,
        ensures
            r@ == spec_caption_line(spec_opt_view(self.caption), self.indent_size->Ok_0 as nat),
    {
        let indent = match self.indent_size {
            Ok(i) => i,
            Err(_) => {
                proof {
                    assert(false);
                }
                0
            },
        };
        match &self.caption {
            Some(caption) => {
                let mut output = spaces(indent - 2);
                output.append("--> ");
                output.append(caption.as_str());
                output.append("\n");
                proof {
                    assert(output@ =~= spec_caption_line(
                        spec_opt_view(self.caption),
                        indent as nat,
                    ));
                }
                output
            },
            None => String::new(),
        }
    }

    /// Overrides the derived gutter width directly, bypassing derivation.
    pub fn set_indent_size(self, indent_size: usize) -> (r: Self)
        ensures
            r == (FriendlyCodeSnippet { indent_size: Ok(indent_size), ..self }),
    {
        let mut s = self;
        s.indent_size = Ok(indent_size);
        s
    }

    /// Consumes the configuration: resolves the line positions, validates the
    /// combination, derives the gutter width, and renders the block.
    pub fn build(self) -> (r: Result<String, FriendlyCodeSnippetError>)
        ensures
            r is Ok <==> spec_build(self) is Ok,
            r is Ok ==> r->Ok_0@ == spec_build(self)->Ok_0,
            r is Err ==> r->Err_0 == spec_build(self)->Err_0,
    {
        let mut this = self;
        this.calc_line_start_start_index();
        this.calc_line_end_start_index();
        proof {
            assert(this == spec_after_resolution(self));
        }
        match this.validate_inputs() {
            Err(e) => {
                return Err(e);
            },
            Ok(_) => {},
        }
        this.calc_indent_size();
        proof {
            let longest = spec_max_nat(
                spec_offset_or_zero(spec_after_resolution(self).line_start_start_index),
                spec_offset_or_zero(spec_after_resolution(self).line_end_start_index),
            );
            lemma_indent_size_bounds(longest);
            if longest >= 10 {
                lemma_digit_count_lt(longest);
            }
            assert(spec_indent_size(longest) <= usize::MAX);
        }
        let mut output = this.build_file_url();
        let caption = this.build_caption();
        output.append(caption.as_str());
        Ok(output)
    }
}

/// Two configurations that agree on every field's contents (their texts as
/// character sequences, their options and plain fields as values).
pub open spec fn spec_snip_like(a: FriendlyCodeSnippet, b: FriendlyCodeSnippet) -> bool {
    &&& a.file_contents@ == b.file_contents@
    &&& spec_opt_view(a.file_path) == spec_opt_view(b.file_path)
    &&& a.index_start == b.index_start
    &&& a.index_end == b.index_end
    &&& a.line_start == b.line_start
    &&& a.line_end == b.line_end
    &&& a.kind == b.kind
    &&& spec_opt_view(a.caption) == spec_opt_view(b.caption)
    &&& a.line_start_start_index == b.line_start_start_index
    &&& a.line_end_start_index == b.line_end_start_index
    &&& a.indent_size == b.indent_size
}

fn clone_opt_string(o: &Option<String>) -> (r: Option<String>)
    ensures
        spec_opt_view(r) == spec_opt_view(*o),
{
    match o {
        None => None,
        Some(s) => Some(s.clone()),
    }
}

impl Clone for FriendlyCodeSnippet {
    /// A deep, independent copy with the same contents.
    fn clone(&self) -> (r: Self)
        ensures
            spec_snip_like(*self, r),
    {
        FriendlyCodeSnippet {
            file_contents: self.file_contents.clone(),
            file_path: clone_opt_string(&self.file_path),
            index_start: self.index_start,
            index_end: self.index_end,
            line_start: self.line_start,
            line_end: self.line_end,
            kind: self.kind,
            caption: clone_opt_string(&self.caption),
            line_start_start_index: self.line_start_start_index,
            line_end_start_index: self.line_end_start_index,
            indent_size: self.indent_size,
        }
    }
}

/// A build depends only on a configuration's contents: two configurations
/// that agree field for field build the same block or fail the same way.
pub proof fn lemma_build_like(a: FriendlyCodeSnippet, b: FriendlyCodeSnippet)
    requires
        spec_snip_like(a, b),
    ensures
        spec_build(a) == spec_build(b),
{
    let ra = spec_after_resolution(a);
    let rb = spec_after_resolution(b);
    assert(spec_snip_like(ra, rb));
    assert(spec_validate(ra) == spec_validate(rb));
    assert(spec_snippet_indent(ra) == spec_snippet_indent(rb));
    assert(spec_snippet_output(ra) == spec_snippet_output(rb));
}

/// A configuration that supplies neither `index_start` nor `line_start`
/// fails to build with `MissingStartPosition`, whatever its end-side fields
/// hold.
pub proof fn lemma_build_missing_start(s: FriendlyCodeSnippet)
    requires
        s.line_start is None,
        s.index_start is None,
    ensures
        spec_build(s) == Err::<Seq<char>, FriendlyCodeSnippetError>(
            FriendlyCodeSnippetError::MissingStartPosition,
        ),
{
}

/// A configuration that supplies a start but neither `index_end` nor
/// `line_end` fails to build with `MissingEndPosition`. (With no start
/// either, `MissingStartPosition` is reported instead: the start is checked
/// first.)
pub proof fn lemma_build_missing_end(s: FriendlyCodeSnippet)
    requires
        s.line_end is None,
        s.index_end is None,
        s.line_start is Some || s.index_start is Some,
    ensures
        spec_build(s) == Err::<Seq<char>, FriendlyCodeSnippetError>(
            FriendlyCodeSnippetError::MissingEndPosition,
        ),
{
}

/// When both line numbers resolve and the start's offset lies strictly after
/// the end's, the build fails with `InvalidEndPosition`.
pub proof fn lemma_build_misordered(s: FriendlyCodeSnippet)
    requires
        spec_resolved(s.file_contents@, s.line_start) is Ok,
        spec_resolved(s.file_contents@, s.line_end) is Ok,
        spec_resolved(s.file_contents@, s.line_start)->Ok_0 > spec_resolved(
            s.file_contents@,
            s.line_end,
        )->Ok_0,
    ensures
        spec_build(s) == Err::<Seq<char>, FriendlyCodeSnippetError>(
            FriendlyCodeSnippetError::InvalidEndPosition,
        ),
{
}

/// The gutter is never narrower than 4 columns, and exactly fits the digits
/// of the widest derived offset plus a separator whenever that needs more.
pub proof fn lemma_indent_size_bounds(longest: nat)
    ensures
        spec_indent_size(longest) >= 4,
        spec_digit_count(longest) + 1 > 4 ==> spec_indent_size(longest) == spec_digit_count(
            longest,
        ) + 1,
{
}

} // verus!
