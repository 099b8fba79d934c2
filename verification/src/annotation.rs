//! Diagnostics and the two-stage position mapper.
//!
//! A diagnostic is built from a span in processed text. When an offset
//! mapping is supplied and resolves both span ends, the original-source
//! positions are taken from it; otherwise a manual scan of the original
//! file's text derives 1-based line and column numbers.

use vstd::prelude::*;

use crate::text::{spec_dec, write_dec};
use crate::tree::Span;

verus! {

/// Severity of a diagnostic.
#[derive(Clone, Copy, Debug, PartialEq, Eq, Hash, Structural)]
pub enum Level {
    /// A notice.
    Notice,
    /// A warning.
    Warning,
    /// An error.
    Error,
}

impl Level {
    /// The fixed token of this level on the wire.
    pub open spec fn spec_token(self) -> Seq<char> {
        match self {
            Level::Notice => seq!['n', 'o', 't', 'i', 'c', 'e'],
            Level::Warning => seq!['w', 'a', 'r', 'n', 'i', 'n', 'g'],
            Level::Error => seq!['e', 'r', 'r', 'o', 'r'],
        }
    }

    /// The level's wire token.
    pub fn as_str(&self) -> (r: &'static str)
        ensures
            r@ == self.spec_token(),
    {
        match self {
            Level::Notice => {
                proof {
                    reveal_strlit("notice");
                    assert("notice"@ =~= self.spec_token());
                }
                "notice"
            },
            Level::Warning => {
                proof {
                    reveal_strlit("warning");
                    assert("warning"@ =~= self.spec_token());
                }
                "warning"
            },
            Level::Error => {
                proof {
                    reveal_strlit("error");
                    assert("error"@ =~= self.spec_token());
                }
                "error"
            },
        }
    }
}

/// One record of an offset mapping: a processed-text offset range together
/// with the original-source positions of the mapped region's two ends.
/// All positions are 1-based.
#[derive(Clone, Copy, Debug, PartialEq, Eq, Structural)]
pub struct MapEntry {
    pub processed_start: usize,
    pub processed_end: usize,
    pub original_start_line: usize,
    pub original_start_column: usize,
    pub original_end_line: usize,
    pub original_end_column: usize,
}

impl MapEntry {
    /// Positions are 1-based.
    pub open spec fn wf(self) -> bool {
        self.original_start_line >= 1 && self.original_start_column >= 1
            && self.original_end_line >= 1 && self.original_end_column >= 1
    }
}

/// A processed-to-original offset mapping, as the parser in front of the
/// library hands it over: ordered records, looked up by containment.
#[derive(Debug)]
pub struct Mapping {
    pub entries: Vec<MapEntry>,
}

/// The first record whose processed range holds `offset`.
pub open spec fn spec_lookup(entries: Seq<MapEntry>, offset: int) -> Option<MapEntry>
    decreases entries.len(),
{
    if entries.len() == 0 {
        None
    } else if entries[0].processed_start <= offset < entries[0].processed_end {
        Some(entries[0])
    } else {
        spec_lookup(entries.drop_first(), offset)
    }
}

impl Mapping {
    /// Every record carries 1-based positions.
    pub open spec fn wf(self) -> bool {
        forall|i: int| 0 <= i < self.entries@.len() ==> (#[trigger] self.entries@[i]).wf()
    }

    /// Resolves a processed-text offset to the record that holds it.
    pub fn lookup(&self, offset: usize) -> (r: Option<MapEntry>)
        ensures
            r == spec_lookup(self.entries@, offset as int),
            match r {
                Some(e) => self.wf() ==> e.wf(),
                None => true,
            },
    {
        let n = self.entries.len();
        proof {
            assert(self.entries@.subrange(0, n as int) =~= self.entries@);
        }
        let mut i: usize = 0;
        while i < n
            invariant
                n == self.entries@.len(),
                i <= n,
                spec_lookup(self.entries@, offset as int) == spec_lookup(
                    self.entries@.subrange(i as int, n as int),
                    offset as int,
                ),
            decreases n - i,
        {
            let ghost pre = self.entries@.subrange(i as int, n as int);
            proof {
                assert(pre[0] == self.entries@[i as int]);
                assert(pre.drop_first() =~= self.entries@.subrange(i + 1, n as int));
            }
            let e = self.entries[i];
            if e.processed_start <= offset && offset < e.processed_end {
                return Some(e);
            }
            i = i + 1;
        }
        None
    }
}

/// A source file as the mapper sees it: its offset mapping and the raw
/// original text, for the manual fallback scan.
#[derive(Debug)]
pub struct SourceFile {
    pub mapping: Mapping,
    pub content: String,
}

impl SourceFile {
    pub open spec fn wf(self) -> bool {
        self.mapping.wf() && self.content@.len() < usize::MAX
    }
}

/// 1-based line number after walking the first `n` characters of `s`.
pub open spec fn spec_pos_line(s: Seq<char>, n: int) -> int
    decreases n,
{
    if n <= 0 {
        1
    } else if s[n - 1] == '\n' {
        spec_pos_line(s, n - 1) + 1
    } else {
        spec_pos_line(s, n - 1)
    }
}

/// 1-based column number after walking the first `n` characters of `s`.
pub open spec fn spec_pos_col(s: Seq<char>, n: int) -> int
    decreases n,
{
    if n <= 0 {
        1
    } else if s[n - 1] == '\n' {
        1
    } else {
        spec_pos_col(s, n - 1) + 1
    }
}

pub proof fn lemma_pos_bounds(s: Seq<char>, n: int)
    ensures
        1 <= spec_pos_line(s, n) <= if n <= 0 { 1int } else { n + 1 },
        1 <= spec_pos_col(s, n) <= if n <= 0 { 1int } else { n + 1 },
    decreases n,
{
    if n > 0 {
        lemma_pos_bounds(s, n - 1);
    }
}

/// The line the fallback scan reports for character offset `off`: the scan
/// records a position only while walking the text, so an offset at or past
/// the end keeps the initial value 1.
pub open spec fn fallback_line(s: Seq<char>, off: int) -> int {
    if 0 <= off < s.len() {
        spec_pos_line(s, off)
    } else {
        1
    }
}

/// The column the fallback scan reports for character offset `off`.
pub open spec fn fallback_col(s: Seq<char>, off: int) -> int {
    if 0 <= off < s.len() {
        spec_pos_col(s, off)
    } else {
        1
    }
}

/// The mathematical content of a diagnostic.
pub struct AnnotationData {
    pub path: Seq<char>,
    pub start_line: int,
    pub end_line: int,
    pub start_column: int,
    pub end_column: int,
    pub level: Level,
    pub message: Seq<char>,
    pub title: Seq<char>,
}

/// A position-annotated finding with severity, title and message.
/// Lines and columns are 1-based.
#[derive(Debug, Clone, PartialEq, Eq, Hash)]
pub struct Annotation {
    /// The path of the file the finding points into.
    pub path: String,
    /// The first line of the finding.
    pub start_line: usize,
    /// The last line of the finding.
    pub end_line: usize,
    /// The column on the first line.
    pub start_column: usize,
    /// The column on the last line.
    pub end_column: usize,
    /// The severity.
    pub level: Level,
    /// The finding's text.
    pub message: String,
    /// A short summary, empty unless a caller sets one.
    pub title: String,
}

impl View for Annotation {
    type V = AnnotationData;

    open spec fn view(&self) -> AnnotationData {
        AnnotationData {
            path: self.path@,
            start_line: self.start_line as int,
            end_line: self.end_line as int,
            start_column: self.start_column as int,
            end_column: self.end_column as int,
            level: self.level,
            message: self.message@,
            title: self.title@,
        }
    }
}

impl DeepView for Annotation {
    type V = AnnotationData;

    open spec fn deep_view(&self) -> AnnotationData {
        self.view()
    }
}

/// What `Annotation::new` builds: positions from the mapping when it
/// resolves both span ends, else from the fallback scan of `content`.
pub open spec fn spec_annotation(
    mapping: Option<Seq<MapEntry>>,
    path: Seq<char>,
    content: Seq<char>,
    span: Span,
    message: Seq<char>,
    level: Level,
) -> AnnotationData {
    let mapped = match mapping {
        Some(entries) => match (spec_lookup(entries, span.start as int), spec_lookup(
            entries,
            span.end as int,
        )) {
            (Some(s), Some(e)) => Some((s, e)),
            _ => None,
        },
        None => None,
    };
    match mapped {
        Some((s, e)) => AnnotationData {
            path,
            start_line: s.original_start_line as int,
            end_line: e.original_end_line as int,
            start_column: s.original_start_column as int,
            end_column: e.original_end_column as int,
            level,
            message,
            title: Seq::empty(),
        },
        None => AnnotationData {
            path,
            start_line: fallback_line(content, span.start as int),
            end_line: fallback_line(content, span.end as int),
            start_column: fallback_col(content, span.start as int),
            end_column: fallback_col(content, span.end as int),
            level,
            message,
            title: Seq::empty(),
        },
    }
}

impl Annotation {
    /// Builds a diagnostic for `span`. When `processed` is given and maps
    /// both span ends, positions come straight from the mapping; otherwise
    /// a character walk over `content` (the raw original text of the file
    /// at `path`) derives them. Positions are always at least 1.
    pub fn new(
        processed: Option<&Mapping>,
        path: String,
        content: &str,
        span: Span,
        message: String,
        level: Level,
    ) -> (r: Annotation)
        requires
            match processed {
                Some(m) => m.wf(),
                None => true,
            },
            content@.len() < usize::MAX,
        ensures
            r@ == spec_annotation(
                match processed {
                    Some(m) => Some(m.entries@),
                    None => None,
                },
                path@,
                content@,
                span,
                message@,
                level,
            ),
            r.start_line >= 1,
            r.end_line >= 1,
            r.start_column >= 1,
            r.end_column >= 1,
            r.title@.len() == 0,
    {
        if let Some(mapping) = processed {
            let s = mapping.lookup(span.start);
            let e = mapping.lookup(span.end);
            if let (Some(s), Some(e)) = (s, e) {
                return Annotation {
                    path,
                    start_line: s.original_start_line,
                    end_line: e.original_end_line,
                    start_column: s.original_start_column,
                    end_column: e.original_end_column,
                    level,
                    message,
                    title: String::new(),
                };
            }
        }
        let len = content.unicode_len();
        let mut start_line: usize = 1;
        let mut start_column: usize = 1;
        let mut end_line: usize = 1;
        let mut end_column: usize = 1;
        let mut line_counter: usize = 1;
        let mut column_counter: usize = 1;
        let mut i: usize = 0;
        while i < len
            invariant
                len == content@.len(),
                len < usize::MAX,
                i <= len,
                line_counter == spec_pos_line(content@, i as int),
                column_counter == spec_pos_col(content@, i as int),
                1 <= line_counter <= i + 1,
                1 <= column_counter <= i + 1,
                start_line == fallback_line(content@, if (span.start as int) < i { span.start as int } else { -1 }),
                start_column == fallback_col(content@, if (span.start as int) < i { span.start as int } else { -1 }),
                end_line == fallback_line(content@, if (span.end as int) < i { span.end as int } else { -1 }),
                end_column == fallback_col(content@, if (span.end as int) < i { span.end as int } else { -1 }),
            decreases len - i,
        {
            let c = content.get_char(i);
            if i == span.start {
                start_line = line_counter;
                start_column = column_counter;
            }
            if i == span.end {
                end_line = line_counter;
                end_column = column_counter;
            }
            if c == '\n' {
                line_counter = line_counter + 1;
                column_counter = 1;
            } else {
                column_counter = column_counter + 1;
            }
            i = i + 1;
        }
        proof {
            lemma_pos_bounds(content@, span.start as int);
            lemma_pos_bounds(content@, span.end as int);
        }
        Annotation {
            path,
            start_line,
            end_line,
            start_column,
            end_column,
            level,
            message,
            title: String::new(),
        }
    }

    /// The wire form of this diagnostic: the eight fields — start line, end
    /// line, start column, end column, level, title, message, path — joined
    /// by `||`, and a closing newline.
    pub open spec fn spec_line(a: AnnotationData) -> Seq<char> {
        spec_dec(a.start_line as nat) + seq!['|', '|'] + spec_dec(a.end_line as nat)
            + seq!['|', '|'] + spec_dec(a.start_column as nat) + seq!['|', '|'] + spec_dec(
            a.end_column as nat,
        ) + seq!['|', '|'] + a.level.spec_token() + seq!['|', '|'] + a.title + seq!['|', '|']
            + a.message + seq!['|', '|'] + a.path + seq!['\n']
    }

    /// Renders one delimited record for line-oriented ingestion.
    pub fn line(&self) -> (r: String)
        ensures
            r@ == Self::spec_line(self@),
    {
        proof {
            reveal_strlit("||");
            reveal_strlit("\n");
        }
        let mut out = String::new();
        write_dec(&mut out, self.start_line);
        out.append("||");
        write_dec(&mut out, self.end_line);
        out.append("||");
        write_dec(&mut out, self.start_column);
        out.append("||");
        write_dec(&mut out, self.end_column);
        out.append("||");
        out.append(self.level.as_str());
        out.append("||");
        out.append(self.title.as_str());
        out.append("||");
        out.append(self.message.as_str());
        out.append("||");
        out.append(self.path.as_str());
        out.append("\n");
        proof {
            assert(out@ =~= Self::spec_line(self@));
        }
        out
    }
}

/// A value-faithful copy of a diagnostic.
pub fn clone_annotation(a: &Annotation) -> (r: Annotation)
    ensures
        r@ == a@,
{
    Annotation {
        path: a.path.clone(),
        start_line: a.start_line,
        end_line: a.end_line,
        start_column: a.start_column,
        end_column: a.end_column,
        level: a.level,
        message: a.message.clone(),
        title: a.title.clone(),
    }
}

/// A value-faithful copy of a sequence of diagnostics.
pub fn clone_annotations(v: &Vec<Annotation>) -> (r: Vec<Annotation>)
    ensures
        r.deep_view() == v.deep_view(),
{
    let mut out: Vec<Annotation> = Vec::new();
    let n = v.len();
    let mut i: usize = 0;
    while i < n
        invariant
            n == v@.len(),
            i <= n,
            out@.len() == i,
            forall|j: int| 0 <= j < i ==> out@[j]@ == v@[j]@,
        decreases n - i,
    {
        out.push(clone_annotation(&v[i]));
        i = i + 1;
    }
    proof {
        assert(out.deep_view() =~= v.deep_view());
    }
    out
}

/// Span round-trip without a mapping: a zero span `[0, 0)` always lands on
/// the file's first character position, line 1 and column 1, at both ends.
pub proof fn lemma_span_round_trip_no_mapping(
    path: Seq<char>,
    content: Seq<char>,
    message: Seq<char>,
    level: Level,
)
    ensures
        ({
            let a = spec_annotation(None, path, content, Span { start: 0, end: 0 }, message, level);
            a.start_line == 1 && a.start_column == 1 && a.end_line == 1 && a.end_column == 1
        }),
{
}

} // verus!
