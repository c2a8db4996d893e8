//! A diagnostic message with its location, and the renderer that turns it,
//! with the text of its source file, into terminal text.
use vstd::prelude::*;
use vstd::string::*;
use crate::error::{error_line, push_styled, CompilationError};
use crate::location::{
    format_location, is_plain_path, location_line, path_components, path_text,
    Location, OwnedLocation, PathComponent,
};
use crate::note::CompilationNote;
use crate::styling::{styled, Styling};
use crate::text::{push_run, run_of};
use crate::warning::CompilationWarning;

verus! {

broadcast use vstd::string::axiom_spec_iter;

/// The severity of a message, with its payload.
#[derive(Clone, Debug)]
pub enum MessageType {
    Error(CompilationError),
    Warning(CompilationWarning),
    Note(CompilationNote),
}

impl From<CompilationError> for MessageType {
    fn from(payload: CompilationError) -> (r: Self)
        ensures
            r == MessageType::Error(payload),
    {
        MessageType::Error(payload)
    }
}

impl vstd::std_specs::convert::FromSpecImpl<CompilationError> for MessageType {
    open spec fn obeys_from_spec() -> bool {
        true
    }

    open spec fn from_spec(payload: CompilationError) -> Self {
        MessageType::Error(payload)
    }
}

impl From<CompilationWarning> for MessageType {
    fn from(payload: CompilationWarning) -> (r: Self)
        ensures
            r == MessageType::Warning(payload),
    {
        MessageType::Warning(payload)
    }
}

impl vstd::std_specs::convert::FromSpecImpl<CompilationWarning> for MessageType {
    open spec fn obeys_from_spec() -> bool {
        true
    }

    open spec fn from_spec(payload: CompilationWarning) -> Self {
        MessageType::Warning(payload)
    }
}

impl From<CompilationNote> for MessageType {
    fn from(payload: CompilationNote) -> (r: Self)
        ensures
            r == MessageType::Note(payload),
    {
        MessageType::Note(payload)
    }
}

impl vstd::std_specs::convert::FromSpecImpl<CompilationNote> for MessageType {
    open spec fn obeys_from_spec() -> bool {
        true
    }

    open spec fn from_spec(payload: CompilationNote) -> Self {
        MessageType::Note(payload)
    }
}

/// A diagnostic: a payload and the span of source it is about.
#[derive(Clone, Debug)]
pub struct CompilationMessage {
    pub message: MessageType,
    pub location: OwnedLocation,
}

/// Whether a payload is a kind without wording.
pub open spec fn is_placeholder(m: MessageType) -> bool {
    match m {
        MessageType::Error(e) => e is Todo,
        MessageType::Warning(_) => true,
        MessageType::Note(_) => true,
    }
}

/// The severity word of the header, with its colon, in its style.
pub open spec fn severity_header(m: MessageType, st: Styling) -> Seq<char> {
    match m {
        MessageType::Error(_) => styled("error:"@, st.header_error),
        MessageType::Warning(_) => styled("warning:"@, st.header_warning),
        MessageType::Note(_) => styled("note:"@, st.header_note),
    }
}

/// The line that explains a payload.
pub open spec fn message_line(m: MessageType, st: Styling) -> Seq<char> {
    match m {
        MessageType::Error(e) => error_line(e, st),
        _ => Seq::<char>::empty(),
    }
}

/// Index of the first line break at or after `from`, or the length of `t`.
pub open spec fn next_newline(t: Seq<char>, from: int) -> int
    decreases t.len() - from,
{
    if from >= t.len() {
        t.len() as int
    } else if t[from] == '\n' {
        from
    } else {
        next_newline(t, from + 1)
    }
}

/// Where the `k`-th line (0-based) of `t` starts, if `t` has that many lines.
/// A line break that ends the text starts no further line.
pub open spec fn line_start(t: Seq<char>, k: nat) -> Option<int>
    decreases k,
{
    if k == 0 {
        if t.len() == 0 {
            None
        } else {
            Some(0)
        }
    } else {
        match line_start(t, (k - 1) as nat) {
            None => None,
            Some(s) => {
                let e = next_newline(t, s);
                if e + 1 < t.len() {
                    Some(e + 1)
                } else {
                    None
                }
            },
        }
    }
}

/// Where the `k`-th line of `t` ends: before its line break, and before a
/// carriage return that stands right before that break.
pub open spec fn line_end(t: Seq<char>, s: int) -> int {
    let e = next_newline(t, s);
    if e < t.len() && e > s && t[e - 1] == '\r' {
        e - 1
    } else {
        e
    }
}

/// The `k`-th line of `t` without its line ending; empty where `t` has no such line.
pub open spec fn source_line(t: Seq<char>, k: nat) -> Seq<char> {
    match line_start(t, k) {
        None => Seq::<char>::empty(),
        Some(s) => t.subrange(s, line_end(t, s)),
    }
}

/// Bytes that a character takes in UTF-8.
pub open spec fn utf8_width(c: char) -> nat {
    let v = c as u32;
    if v < 0x80 {
        1
    } else if v < 0x800 {
        2
    } else if v < 0x10000 {
        3
    } else {
        4
    }
}

/// Bytes that `s` takes in UTF-8.
pub open spec fn byte_len(s: Seq<char>) -> nat
    decreases s.len(),
{
    if s.len() == 0 {
        0
    } else {
        byte_len(s.drop_last()) + utf8_width(s.last())
    }
}

/// How many leading characters of `s` fit whole within `b` bytes: a byte
/// offset rounded down to a character boundary, as a character index.
pub open spec fn chars_within(s: Seq<char>, b: nat) -> nat
    decreases s.len(),
{
    if s.len() == 0 {
        0
    } else if utf8_width(s[0]) <= b {
        1 + chars_within(s.drop_first(), (b - utf8_width(s[0])) as nat)
    } else {
        0
    }
}

/// Start of the highlighted byte range: the column, 1-based, clamped into the
/// line's `line_len` bytes.
pub open spec fn highlight_lo(line_len: nat, column: nat) -> nat {
    let c = if column >= 1 {
        (column - 1) as nat
    } else {
        0
    };
    if c <= line_len {
        c
    } else {
        line_len
    }
}

/// End of the highlighted byte range: `length` bytes past its start, clamped
/// into the line.
pub open spec fn highlight_hi(line_len: nat, column: nat, length: nat) -> nat {
    let h = highlight_lo(line_len, column) + length;
    if h <= line_len {
        h
    } else {
        line_len
    }
}

/// The source line with `[lo, hi)` in the highlight style, then a newline.
pub open spec fn snippet(line: Seq<char>, lo: nat, hi: nat, st: Styling) -> Seq<char> {
    line.subrange(0, lo as int) + styled(line.subrange(lo as int, hi as int), st.line_wrong_part)
        + line.subrange(hi as int, line.len() as int) + seq!['\n']
}

/// The marker line: carets under the bytes `[lo, hi)`, one column per byte,
/// drawn when the styling asks for it or the range is empty.
pub open spec fn marker(lo: nat, hi: nat, underline: bool) -> Seq<char> {
    if underline || lo == hi {
        run_of(' ', lo) + run_of('^', (hi - lo) as nat) + seq!['\n']
    } else {
        Seq::<char>::empty()
    }
}

/// The header line: location, then the severity word.
pub open spec fn header_text(msg: CompilationMessage, path: Seq<char>, st: Styling) -> Seq<char> {
    styled(location_line(path, msg.location.start), st.location) + " | "@ + severity_header(
        msg.message,
        st,
    ) + seq!['\n']
}

/// The source line a message points at, within source text `t`.
pub open spec fn message_source_line(msg: CompilationMessage, t: Seq<char>) -> Seq<char> {
    let line = msg.location.start.line;
    source_line(
        t,
        if line >= 1 {
            (line - 1) as nat
        } else {
            0
        },
    )
}

/// Where the highlighted bytes of a message's line start.
pub open spec fn message_lo(msg: CompilationMessage, t: Seq<char>) -> nat {
    highlight_lo(byte_len(message_source_line(msg, t)), msg.location.start.column as nat)
}

/// Where the highlighted bytes of a message's line end.
pub open spec fn message_hi(msg: CompilationMessage, t: Seq<char>) -> nat {
    highlight_hi(
        byte_len(message_source_line(msg, t)),
        msg.location.start.column as nat,
        msg.location.length as nat,
    )
}

/// The full text of a message whose path is written `path`, over source text
/// `t`. The highlighted byte range is rounded down to character boundaries;
/// the snippet splits the line there and the marker counts the bytes up to them.
pub open spec fn rendered(msg: CompilationMessage, path: Seq<char>, t: Seq<char>, st: Styling) -> Seq<
    char,
> {
    let line = message_source_line(msg, t);
    let lo = chars_within(line, message_lo(msg, t));
    let hi = chars_within(line, message_hi(msg, t));
    header_text(msg, path, st) + message_line(msg.message, st) + snippet(line, lo, hi, st) + marker(
        byte_len(line.subrange(0, lo as int)),
        byte_len(line.subrange(0, hi as int)),
        st.underline,
    )
}

/// The highlighted range of a line lies within it and does not run backwards.
pub proof fn highlight_in_line(line_len: nat, column: nat, length: nat)
    requires
        column >= 1,
    ensures
        0 <= highlight_lo(line_len, column) <= highlight_hi(line_len, column, length) <= line_len,
{
}

/// A span of length zero still gets its marker line, whatever the styling
/// says: after the snippet come only the padding and a newline. The padding is
/// the bytes before the span's start, which is the column less one unless the
/// column falls inside a multi-byte character; there it is rounded down to
/// that character's start.
pub proof fn empty_span_draws_marker(msg: CompilationMessage, path: Seq<char>, t: Seq<char>, st: Styling)
    requires
        msg.location.length == 0,
    ensures
        ({
            let line = message_source_line(msg, t);
            let lo = chars_within(line, message_lo(msg, t));
            rendered(msg, path, t, st) == header_text(msg, path, st) + message_line(msg.message, st)
                + snippet(line, lo, lo, st) + run_of(' ', byte_len(line.subrange(0, lo as int)))
                + seq!['\n']
        }),
{
    let line = message_source_line(msg, t);
    let lo = chars_within(line, message_lo(msg, t));
    assert(message_hi(msg, t) == message_lo(msg, t));
    let w = byte_len(line.subrange(0, lo as int));
    assert(run_of('^', 0) =~= Seq::<char>::empty());
    assert(run_of(' ', w) + run_of('^', 0) =~= run_of(' ', w));
}

proof fn lemma_chars_within_monotone(s: Seq<char>, b1: nat, b2: nat)
    requires
        b1 <= b2,
    ensures
        chars_within(s, b1) <= chars_within(s, b2),
        chars_within(s, b2) <= s.len(),
    decreases s.len(),
{
    if s.len() > 0 {
        let w = utf8_width(s[0]);
        if w <= b1 {
            lemma_chars_within_monotone(s.drop_first(), (b1 - w) as nat, (b2 - w) as nat);
        } else if w <= b2 {
            lemma_chars_within_monotone(s.drop_first(), 0, (b2 - w) as nat);
        }
    }
}

proof fn lemma_bytes_of_prefix_monotone(s: Seq<char>, i: int, j: int)
    requires
        0 <= i <= j <= s.len(),
    ensures
        byte_len(s.subrange(0, i)) <= byte_len(s.subrange(0, j)),
    decreases j - i,
{
    if i < j {
        assert(s.subrange(0, j).drop_last() =~= s.subrange(0, j - 1));
        lemma_bytes_of_prefix_monotone(s, i, j - 1);
    }
}

/// Clamps the highlighted byte range of a span into a line of `line_len` bytes.
pub fn highlight_range(line_len: u128, column: u32, length: usize) -> (r: (u128, u128))
    ensures
        r.0 == highlight_lo(line_len as nat, column as nat),
        r.1 == highlight_hi(line_len as nat, column as nat, length as nat),
        r.0 <= r.1 <= line_len,
{
    let c: u128 = if column >= 1 {
        (column - 1) as u128
    } else {
        0
    };
    let lo: u128 = if c <= line_len {
        c
    } else {
        line_len
    };
    let hi: u128 = if (length as u128) <= line_len - lo {
        lo + length as u128
    } else {
        line_len
    };
    (lo, hi)
}

fn chars_of(s: &str) -> (r: Vec<char>)
    ensures
        r@ == s@,
{
    let mut v: Vec<char> = Vec::new();
    for c in it: s.chars()
        invariant
            v@ == it.seq().subrange(0, it.index() as int),
    {
        v.push(c);
    }
    assert(v@ =~= s@);
    v
}

fn find_newline(cs: &Vec<char>, from: usize) -> (r: usize)
    requires
        from <= cs.len(),
    ensures
        r == next_newline(cs@, from as int),
{
    let mut i = from;
    while i < cs.len() && cs[i] != '\n'
        invariant
            from <= i <= cs.len(),
            next_newline(cs@, i as int) == next_newline(cs@, from as int),
        decreases cs.len() - i,
    {
        i = i + 1;
    }
    i
}

proof fn lemma_no_line_after(t: Seq<char>, a: nat, b: nat)
    requires
        a <= b,
        line_start(t, a) is None,
    ensures
        line_start(t, b) is None,
    decreases b - a,
{
    if a < b {
        lemma_no_line_after(t, a, (b - 1) as nat);
    }
}

proof fn lemma_next_newline_bounds(t: Seq<char>, from: int)
    requires
        0 <= from <= t.len(),
    ensures
        from <= next_newline(t, from) <= t.len(),
        next_newline(t, from) < t.len() ==> t[next_newline(t, from)] == '\n',
    decreases t.len() - from,
{
    if from < t.len() && t[from] != '\n' {
        lemma_next_newline_bounds(t, from + 1);
    }
}

fn select_line_in(cs: &Vec<char>, k: usize) -> (r: (usize, usize))
    ensures
        r.0 + r.1 <= cs@.len(),
        r.0 + r.1 <= usize::MAX,
        cs@.subrange(r.0 as int, r.0 + r.1) == source_line(cs@, k as nat),
{
    if cs.len() == 0 {
        proof {
            lemma_no_line_after(cs@, 0, k as nat);
            assert(cs@.subrange(0, 0) =~= Seq::<char>::empty());
        }
        return (0, 0);
    }
    let mut s: usize = 0;
    let mut j: usize = 0;
    while j < k
        invariant
            j <= k,
            s < cs.len(),
            line_start(cs@, j as nat) == Some(s as int),
        decreases k - j,
    {
        let e = find_newline(&cs, s);
        proof {
            lemma_next_newline_bounds(cs@, s as int);
        }
        if e < cs.len() - 1 {
            s = e + 1;
            j = j + 1;
        } else {
            proof {
                lemma_no_line_after(cs@, (j + 1) as nat, k as nat);
                assert(cs@.subrange(0, 0) =~= Seq::<char>::empty());
            }
            return (0, 0);
        }
    }
    let e = find_newline(&cs, s);
    proof {
        lemma_next_newline_bounds(cs@, s as int);
    }
    let end = if e < cs.len() && e > s && cs[e - 1] == '\r' {
        e - 1
    } else {
        e
    };
    (s, end - s)
}

/// Finds the `k`-th line of `text`: where it starts and how long it is, both
/// counted in characters.
pub fn select_line(text: &str, k: usize) -> (r: (usize, usize))
    ensures
        r.0 + r.1 <= text@.len(),
        text@.subrange(r.0 as int, r.0 + r.1) == source_line(text@, k as nat),
{
    let cs = chars_of(text);
    select_line_in(&cs, k)
}

fn byte_width(c: char) -> (r: u128)
    ensures
        r == utf8_width(c),
{
    let v = c as u32;
    if v < 0x80 {
        1
    } else if v < 0x800 {
        2
    } else if v < 0x10000 {
        3
    } else {
        4
    }
}

/// Bytes of the characters `cs[a..a + len]`.
fn span_bytes(cs: &Vec<char>, a: usize, len: usize) -> (r: u128)
    requires
        a + len <= cs.len(),
    ensures
        r == byte_len(cs@.subrange(a as int, a + len)),
{
    let ghost line = cs@.subrange(a as int, a + len);
    let mut acc: u128 = 0;
    let mut i: usize = 0;
    while i < len
        invariant
            a + len <= cs.len(),
            line == cs@.subrange(a as int, a + len),
            i <= len,
            acc <= 4 * i,
            acc == byte_len(line.subrange(0, i as int)),
        decreases len - i,
    {
        let w = byte_width(cs[a + i]);
        proof {
            assert(line.subrange(0, i + 1).drop_last() =~= line.subrange(0, i as int));
        }
        acc = acc + w;
        i = i + 1;
    }
    assert(line.subrange(0, len as int) =~= line);
    acc
}

/// How many leading characters of `cs[a..a + len]` fit whole within `b`
/// bytes, and the bytes they take.
fn fit_chars(cs: &Vec<char>, a: usize, len: usize, b: u128) -> (r: (usize, u128))
    requires
        a + len <= cs.len(),
    ensures
        r.0 == chars_within(cs@.subrange(a as int, a + len), b as nat),
        r.1 == byte_len(cs@.subrange(a as int, a + len).subrange(0, r.0 as int)),
        r.0 <= len,
        r.1 <= b,
{
    let ghost line = cs@.subrange(a as int, a + len);
    let mut acc: u128 = 0;
    let mut i: usize = 0;
    assert(line.subrange(0, len as int) =~= line);
    while i < len && byte_width(cs[a + i]) <= b - acc
        invariant
            a + len <= cs.len(),
            line == cs@.subrange(a as int, a + len),
            i <= len,
            acc <= b,
            acc == byte_len(line.subrange(0, i as int)),
            chars_within(line, b as nat) == i + chars_within(
                line.subrange(i as int, len as int),
                (b - acc) as nat,
            ),
        decreases len - i,
    {
        let w = byte_width(cs[a + i]);
        proof {
            let rest = line.subrange(i as int, len as int);
            assert(rest.drop_first() =~= line.subrange(i + 1, len as int));
            assert(rest[0] == cs@[a + i]);
            assert(line.subrange(0, i + 1).drop_last() =~= line.subrange(0, i as int));
        }
        acc = acc + w;
        i = i + 1;
    }
    proof {
        let rest = line.subrange(i as int, len as int);
        if i < len {
            assert(rest[0] == cs@[a + i]);
        }
    }
    (i, acc)
}

fn push_snippet(
    out: &mut String,
    source: &str,
    a: usize,
    len: usize,
    lo: usize,
    hi: usize,
    styling: &Styling,
)
    requires
        a + len <= source@.len(),
        a + len <= usize::MAX,
        lo <= hi <= len,
    ensures
        final(out)@ == old(out)@ + snippet(
            source@.subrange(a as int, a + len),
            lo as nat,
            hi as nat,
            *styling,
        ),
{
    let ghost line = source@.subrange(a as int, a + len);
    out.append(source.substring_char(a, a + lo));
    push_styled(out, source.substring_char(a + lo, a + hi), &styling.line_wrong_part);
    out.append(source.substring_char(a + hi, a + len));
    proof {
        reveal_strlit("\n");
    }
    out.append("\n");
    assert(line.subrange(0, lo as int) =~= source@.subrange(a as int, a + lo));
    assert(line.subrange(lo as int, hi as int) =~= source@.subrange(a + lo, a + hi));
    assert(line.subrange(hi as int, len as int) =~= source@.subrange(a + hi, a + len));
    assert(final(out)@ =~= old(out)@ + snippet(line, lo as nat, hi as nat, *styling));
}

fn push_marker(out: &mut String, lo: u128, hi: u128, underline: bool)
    requires
        lo <= hi,
    ensures
        final(out)@ == old(out)@ + marker(lo as nat, hi as nat, underline),
{
    if underline || lo == hi {
        proof {
            reveal_strlit(" ");
            reveal_strlit("^");
            reveal_strlit("\n");
        }
        push_run(out, " ", lo);
        push_run(out, "^", hi - lo);
        out.append("\n");
        assert(final(out)@ =~= old(out)@ + marker(lo as nat, hi as nat, underline));
    } else {
        assert(final(out)@ =~= old(out)@ + marker(lo as nat, hi as nat, underline));
    }
}

impl CompilationMessage {
    fn push_header(&self, out: &mut String, components: &Vec<PathComponent>, styling: &Styling)
        ensures
            final(out)@ == old(out)@ + header_text(*self, path_text(components@), *styling),
    {
        let loc_text = format_location(components, self.location.start);
        push_styled(out, loc_text.as_str(), &styling.location);
        out.append(" | ");
        match &self.message {
            MessageType::Error(_) => push_styled(out, "error:", &styling.header_error),
            MessageType::Warning(_) => push_styled(out, "warning:", &styling.header_warning),
            MessageType::Note(_) => push_styled(out, "note:", &styling.header_note),
        }
        proof {
            reveal_strlit("\n");
        }
        out.append("\n");
        assert(final(out)@ =~= old(out)@ + header_text(*self, path_text(components@), *styling));
    }

    /// Makes a message, copying the location's file name.
    pub fn new(location: Location, message: MessageType) -> (r: Self)
        ensures
            r.location.filename@ == location.filename@,
            r.location.start == location.start,
            r.location.length == location.length,
            r.message == message,
    {
        let location = location.as_owned();
        CompilationMessage { location, message }
    }

    /// Whether the message is an error, the severity that fails a compilation.
    pub fn is_error(&self) -> (r: bool)
        ensures
            r <==> self.message is Error,
    {
        match self.message {
            MessageType::Error(_) => true,
            _ => false,
        }
    }

    /// Whether the payload has wording, so that the message can be rendered.
    pub fn has_wording(&self) -> (r: bool)
        ensures
            r == !is_placeholder(self.message),
    {
        match &self.message {
            MessageType::Error(CompilationError::Todo(_)) => false,
            MessageType::Error(_) => true,
            MessageType::Warning(_) => false,
            MessageType::Note(_) => false,
        }
    }

    /// Renders the message over `source`, the text of its file, with the path
    /// already split into `components`: header, explanation, the source line
    /// with the span highlighted, and the marker line where one is drawn. A
    /// payload without wording cannot be rendered.
    pub fn render_with(&self, components: &Vec<PathComponent>, source: &str, styling: &Styling) -> (r:
        String)
        requires
            !is_placeholder(self.message),
        ensures
            r@ == rendered(*self, path_text(components@), source@, *styling),
    {
        let body = match &self.message {
            MessageType::Error(e) => e.display(styling).unwrap(),
            _ => {
                assert(false);
                String::new()
            },
        };
        let start = self.location.start;
        let k: usize = if start.line >= 1 {
            (start.line - 1) as usize
        } else {
            0
        };
        let cs = chars_of(source);
        let (a, len) = select_line_in(&cs, k);
        let ghost line = source@.subrange(a as int, a + len);
        let line_bytes = span_bytes(&cs, a, len);
        let (lo_b, hi_b) = highlight_range(line_bytes, start.column, self.location.length);
        let (lo, lo_w) = fit_chars(&cs, a, len, lo_b);
        let (hi, hi_w) = fit_chars(&cs, a, len, hi_b);
        proof {
            lemma_chars_within_monotone(line, lo_b as nat, hi_b as nat);
            lemma_bytes_of_prefix_monotone(line, lo as int, hi as int);
        }
        let mut out = String::new();
        self.push_header(&mut out, components, styling);
        out.append(body.as_str());
        push_snippet(&mut out, source, a, len, lo, hi, styling);
        push_marker(&mut out, lo_w, hi_w, styling.underline);
        assert(out@ =~= rendered(*self, path_text(components@), source@, *styling));
        out
    }

    /// Renders the message over `source`, the text of its file, splitting the
    /// file's path by the host's conventions and writing it with `/`. A payload
    /// without wording cannot be rendered.
    pub fn render(&self, source: &str, styling: &Styling) -> (r: String)
        requires
            !is_placeholder(self.message),
        ensures
            exists|p: Seq<char>| r@ == #[trigger] rendered(*self, p, source@, *styling),
            is_plain_path(self.location.filename@) ==> r@ == rendered(
                *self,
                self.location.filename@,
                source@,
                *styling,
            ),
    {
        let components = path_components(self.location.filename.as_str());
        self.render_with(&components, source, styling)
    }
}

/// Whether any of the messages is an error: a compilation that collected
/// them fails exactly then.
pub fn any_error(messages: &Vec<CompilationMessage>) -> (r: bool)
    ensures
        r == exists|i: int| 0 <= i < messages@.len() && (#[trigger] messages@[i]).message is Error,
{
    let mut i: usize = 0;
    while i < messages.len()
        invariant
            i <= messages.len(),
            forall|j: int| 0 <= j < i ==> !((#[trigger] messages@[j]).message is Error),
        decreases messages.len() - i,
    {
        if messages[i].is_error() {
            return true;
        }
        i = i + 1;
    }
    false
}

} // verus!
