//! Splitting streamed API responses into events.
//!
//! Chat completion APIs stream their responses. The HTTP body arrives
//! in chunks, which the client appends to a text buffer; after each
//! chunk, it takes as many complete events as it can from the front
//! of the buffer and leaves the rest for later chunks.
//!
//! Three framings are handled here:
//!  * server-sent events, used by OpenAI and OpenRouter: events are
//!    separated by a blank line and carry their payload on a
//!    `data: ` line ([`next_sse_data`]);
//!  * newline-delimited JSON, used by Ollama ([`next_json_line`]);
//!  * a streamed JSON array of objects, used by Gemini
//!    ([`next_json_object`] and [`consume_json_object`]).
//!
//! The buffer holds the characters of the received text. What these
//! functions hand back is the text of one event; decoding it is the
//! caller's business.

use vstd::prelude::*;

verus! {

// ---------------------------------------------------------------------
// Character classes and trimming
// ---------------------------------------------------------------------

/// Whether `c` has the Unicode `White_Space` property (what
/// `char::is_whitespace` and `str::trim` go by).
pub open spec fn is_unicode_whitespace(c: char) -> bool {
    let v = c as u32;
    ||| 0x09 <= v <= 0x0D
    ||| v == 0x20
    ||| v == 0x85
    ||| v == 0xA0
    ||| v == 0x1680
    ||| 0x2000 <= v <= 0x200A
    ||| v == 0x2028
    ||| v == 0x2029
    ||| v == 0x202F
    ||| v == 0x205F
    ||| v == 0x3000
}

/// Whether `c` is ASCII whitespace (what `u8::is_ascii_whitespace`
/// accepts): space, tab, line feed, form feed or carriage return.
pub open spec fn is_ascii_whitespace(c: char) -> bool {
    c == ' ' || c == '\t' || c == '\n' || c == '\x0C' || c == '\r'
}

pub fn unicode_whitespace(c: char) -> (r: bool)
    ensures
        r == is_unicode_whitespace(c),
{
    let v = c as u32;
    (0x09 <= v && v <= 0x0D) || v == 0x20 || v == 0x85 || v == 0xA0 || v == 0x1680 || (0x2000
        <= v && v <= 0x200A) || v == 0x2028 || v == 0x2029 || v == 0x202F || v == 0x205F || v
        == 0x3000
}

pub fn ascii_whitespace(c: char) -> (r: bool)
    ensures
        r == is_ascii_whitespace(c),
{
    c == ' ' || c == '\t' || c == '\n' || c == '\x0C' || c == '\r'
}

/// The first index at or after `i`, and before `hi`, that does not
/// hold Unicode whitespace (or `hi`).
pub open spec fn skip_ws_forward(s: Seq<char>, i: int, hi: int) -> int
    decreases hi - i,
{
    if i < hi && 0 <= i < s.len() && is_unicode_whitespace(s[i]) {
        skip_ws_forward(s, i + 1, hi)
    } else {
        i
    }
}

/// The smallest `j` with `lo <= j <= hi` such that `s[j..hi]` is all
/// Unicode whitespace.
pub open spec fn skip_ws_backward(s: Seq<char>, lo: int, hi: int) -> int
    decreases hi - lo,
{
    if lo < hi && 0 <= hi - 1 < s.len() && is_unicode_whitespace(s[hi - 1]) {
        skip_ws_backward(s, lo, hi - 1)
    } else {
        hi
    }
}

/// `s` without leading and trailing Unicode whitespace, as `str::trim`
/// gives it.
pub open spec fn trim(s: Seq<char>) -> Seq<char> {
    let a = skip_ws_forward(s, 0, s.len() as int);
    let b = skip_ws_backward(s, a, s.len() as int);
    s.subrange(a, b)
}

proof fn lemma_skip_ws_forward_bounds(s: Seq<char>, i: int, hi: int)
    requires
        0 <= i <= hi <= s.len(),
    ensures
        i <= skip_ws_forward(s, i, hi) <= hi,
    decreases hi - i,
{
    if i < hi && is_unicode_whitespace(s[i]) {
        lemma_skip_ws_forward_bounds(s, i + 1, hi);
    }
}

proof fn lemma_skip_ws_backward_bounds(s: Seq<char>, lo: int, hi: int)
    requires
        0 <= lo <= hi <= s.len(),
    ensures
        lo <= skip_ws_backward(s, lo, hi) <= hi,
    decreases hi - lo,
{
    if lo < hi && is_unicode_whitespace(s[hi - 1]) {
        lemma_skip_ws_backward_bounds(s, lo, hi - 1);
    }
}

/// Trimming a range of a sequence only looks at that range.
proof fn lemma_trim_of_range(s: Seq<char>, lo: int, hi: int, i: int)
    requires
        0 <= lo <= i <= hi <= s.len(),
    ensures
        skip_ws_forward(s, i, hi) - lo == skip_ws_forward(s.subrange(lo, hi), i - lo, hi - lo),
    decreases hi - i,
{
    if i < hi && is_unicode_whitespace(s[i]) {
        lemma_trim_of_range(s, lo, hi, i + 1);
    }
}

proof fn lemma_trim_back_of_range(s: Seq<char>, lo: int, hi: int, a: int, j: int)
    requires
        0 <= lo <= a <= j <= hi <= s.len(),
    ensures
        skip_ws_backward(s, a, j) - lo == skip_ws_backward(s.subrange(lo, hi), a - lo, j - lo),
    decreases j - a,
{
    if a < j && is_unicode_whitespace(s[j - 1]) {
        lemma_trim_back_of_range(s, lo, hi, a, j - 1);
    }
}

/// The bounds `(a, b)` of `buf[lo..hi]` with its surrounding
/// whitespace removed.
fn trim_bounds(buf: &Vec<char>, lo: usize, hi: usize) -> (r: (usize, usize))
    requires
        lo <= hi <= buf@.len(),
    ensures
        r.0 == skip_ws_forward(buf@, lo as int, hi as int),
        r.1 == skip_ws_backward(buf@, r.0 as int, hi as int),
        lo <= r.0 <= r.1 <= hi,
{
    let mut a = lo;
    while a < hi && unicode_whitespace(buf[a])
        invariant
            lo <= a <= hi <= buf@.len(),
            skip_ws_forward(buf@, lo as int, hi as int) == skip_ws_forward(
                buf@,
                a as int,
                hi as int,
            ),
        decreases hi - a,
    {
        a = a + 1;
    }
    let mut b = hi;
    while b > a && unicode_whitespace(buf[b - 1])
        invariant
            lo <= a <= b <= hi <= buf@.len(),
            skip_ws_backward(buf@, a as int, hi as int) == skip_ws_backward(
                buf@,
                a as int,
                b as int,
            ),
        decreases b - a,
    {
        b = b - 1;
    }
    (a, b)
}

/// A copy of `buf[lo..hi]`.
pub fn copy_range(buf: &Vec<char>, lo: usize, hi: usize) -> (r: Vec<char>)
    requires
        lo <= hi <= buf@.len(),
    ensures
        r@ == buf@.subrange(lo as int, hi as int),
{
    let mut r: Vec<char> = Vec::new();
    let mut i = lo;
    while i < hi
        invariant
            lo <= i <= hi <= buf@.len(),
            r@ == buf@.subrange(lo as int, i as int),
        decreases hi - i,
    {
        r.push(buf[i]);
        i = i + 1;
        assert(r@ =~= buf@.subrange(lo as int, i as int));
    }
    r
}


/// `trim` of a range is the range between the trimmed bounds.
proof fn lemma_trim_range(s: Seq<char>, lo: int, hi: int)
    requires
        0 <= lo <= hi <= s.len(),
    ensures
        ({
            let a = skip_ws_forward(s, lo, hi);
            let b = skip_ws_backward(s, a, hi);
            &&& lo <= a <= b <= hi
            &&& trim(s.subrange(lo, hi)) == s.subrange(a, b)
        }),
{
    let sub = s.subrange(lo, hi);
    let a = skip_ws_forward(s, lo, hi);
    lemma_skip_ws_forward_bounds(s, lo, hi);
    lemma_trim_of_range(s, lo, hi, lo);
    let b = skip_ws_backward(s, a, hi);
    lemma_skip_ws_backward_bounds(s, a, hi);
    lemma_trim_back_of_range(s, lo, hi, a, hi);
    assert(sub.subrange(a - lo, b - lo) =~= s.subrange(a, b));
}

// ---------------------------------------------------------------------
// Server-sent events (OpenAI, OpenRouter)
// ---------------------------------------------------------------------

/// The prefix of a data line: `data: `.
pub open spec fn data_prefix() -> Seq<char> {
    seq!['d', 'a', 't', 'a', ':', ' ']
}

/// The payload that ends a stream: `[DONE]`.
pub open spec fn done_marker() -> Seq<char> {
    seq!['[', 'D', 'O', 'N', 'E', ']']
}

/// The payload of `line` if, once trimmed, it starts with `data: `.
pub open spec fn line_data(line: Seq<char>) -> Option<Seq<char>> {
    let t = trim(line);
    if t.len() >= 6 && t.subrange(0, 6) == data_prefix() {
        Some(t.skip(6))
    } else {
        None
    }
}

/// The payload of the first data line of `block` among the lines that
/// start at `line_start`, where `i` is the scanning position inside
/// the current line.
pub open spec fn first_data_from(block: Seq<char>, line_start: int, i: int) -> Option<Seq<char>>
    decreases block.len() - i,
{
    if i >= block.len() {
        line_data(block.subrange(line_start, block.len() as int))
    } else if block[i] == '\n' {
        match line_data(block.subrange(line_start, i)) {
            Some(d) => Some(d),
            None => first_data_from(block, i + 1, i + 1),
        }
    } else {
        first_data_from(block, line_start, i + 1)
    }
}

/// The payload of the first data line of an event block.
pub open spec fn block_data(block: Seq<char>) -> Option<Seq<char>> {
    first_data_from(block, 0, 0)
}

/// The position of the first blank-line separator (`\n\n`) at or
/// after `i`.
pub open spec fn find_blank_from(s: Seq<char>, i: int) -> Option<int>
    decreases s.len() - i,
{
    if i < 0 || i + 1 >= s.len() {
        None
    } else if s[i] == '\n' && s[i + 1] == '\n' {
        Some(i)
    } else {
        find_blank_from(s, i + 1)
    }
}

/// What a scan of a server-sent event stream yields.
pub enum SseEventSpec {
    /// The payload of a data line.
    Data(Seq<char>),
    /// The `[DONE]` payload that ends the stream.
    Done,
    /// No complete event carries data yet.
    Pending,
}

/// What [`next_sse_data`] yields.
pub enum SseEvent {
    /// The payload of a data line.
    Data(Vec<char>),
    /// The `[DONE]` payload that ends the stream.
    Done,
    /// No complete event carries data yet.
    Pending,
}

impl View for SseEvent {
    type V = SseEventSpec;

    open spec fn view(&self) -> SseEventSpec {
        match self {
            SseEvent::Data(d) => SseEventSpec::Data(d@),
            SseEvent::Done => SseEventSpec::Done,
            SseEvent::Pending => SseEventSpec::Pending,
        }
    }
}

/// The next event of a server-sent event stream held in `buf`, and
/// what is left of `buf` after it.
///
/// Complete event blocks (those followed by a blank line) are taken
/// from the front one at a time. A block whose lines carry no data is
/// dropped and the scan goes on; the first data line of a block ends
/// the scan, with the block consumed.
pub open spec fn sse_next(buf: Seq<char>) -> (SseEventSpec, Seq<char>)
    decreases buf.len(),
{
    match find_blank_from(buf, 0) {
        None => (SseEventSpec::Pending, buf),
        Some(p) => if 0 <= p && p + 2 <= buf.len() {
            let rest = buf.skip(p + 2);
            match block_data(buf.subrange(0, p)) {
                Some(d) => if d == done_marker() {
                    (SseEventSpec::Done, rest)
                } else {
                    (SseEventSpec::Data(d), rest)
                },
                None => sse_next(rest),
            }
        } else {
            (SseEventSpec::Pending, buf)
        },
    }
}

proof fn lemma_find_blank_from(s: Seq<char>, i: int)
    requires
        0 <= i,
    ensures
        match find_blank_from(s, i) {
            Some(p) => i <= p && p + 1 < s.len() && s[p] == '\n' && s[p + 1] == '\n',
            None => true,
        },
    decreases s.len() - i,
{
    if i + 1 < s.len() && !(s[i] == '\n' && s[i + 1] == '\n') {
        lemma_find_blank_from(s, i + 1);
    }
}

/// The position of the first `\n\n` in `buf`.
fn find_blank(buf: &Vec<char>) -> (r: Option<usize>)
    ensures
        match r {
            Some(p) => find_blank_from(buf@, 0) == Some(p as int),
            None => find_blank_from(buf@, 0) is None,
        },
{
    let n = buf.len();
    let mut i: usize = 0;
    while n > 0 && i < n - 1
        invariant
            n == buf@.len(),
            i <= n,
            find_blank_from(buf@, 0) == find_blank_from(buf@, i as int),
        decreases n - i,
    {
        if buf[i] == '\n' && buf[i + 1] == '\n' {
            return Some(i);
        }
        i = i + 1;
    }
    None
}

/// Whether `buf[lo..hi]` is `[DONE]`.
fn is_done_marker(buf: &Vec<char>) -> (r: bool)
    ensures
        r == (buf@ == done_marker()),
{
    let r = buf.len() == 6 && buf[0] == '[' && buf[1] == 'D' && buf[2] == 'O' && buf[3] == 'N'
        && buf[4] == 'E' && buf[5] == ']';
    proof {
        if r {
            assert(buf@ =~= done_marker());
        }
    }
    r
}

/// The payload of the line `buf[lo..hi]`, if it is a data line.
fn line_data_exec(buf: &Vec<char>, lo: usize, hi: usize) -> (r: Option<Vec<char>>)
    requires
        lo <= hi <= buf@.len(),
    ensures
        match r {
            Some(d) => line_data(buf@.subrange(lo as int, hi as int)) == Some(d@),
            None => line_data(buf@.subrange(lo as int, hi as int)) is None,
        },
{
    let (a, b) = trim_bounds(buf, lo, hi);
    proof {
        lemma_trim_range(buf@, lo as int, hi as int);
    }
    let ghost t = buf@.subrange(a as int, b as int);
    if b - a >= 6 && buf[a] == 'd' && buf[a + 1] == 'a' && buf[a + 2] == 't' && buf[a + 3] == 'a'
        && buf[a + 4] == ':' && buf[a + 5] == ' ' {
        assert(t.subrange(0, 6) =~= data_prefix());
        let d = copy_range(buf, a + 6, b);
        assert(d@ =~= t.skip(6));
        Some(d)
    } else {
        proof {
            if t.len() >= 6 && t.subrange(0, 6) == data_prefix() {
                assert(t.subrange(0, 6)[0] == 'd');
                assert(t.subrange(0, 6)[1] == 'a');
                assert(t.subrange(0, 6)[2] == 't');
                assert(t.subrange(0, 6)[3] == 'a');
                assert(t.subrange(0, 6)[4] == ':');
                assert(t.subrange(0, 6)[5] == ' ');
            }
        }
        None
    }
}

/// The payload of the first data line of the block `buf[0..end]`.
fn block_data_exec(buf: &Vec<char>, end: usize) -> (r: Option<Vec<char>>)
    requires
        end <= buf@.len(),
    ensures
        match r {
            Some(d) => block_data(buf@.subrange(0, end as int)) == Some(d@),
            None => block_data(buf@.subrange(0, end as int)) is None,
        },
{
    let ghost block = buf@.subrange(0, end as int);
    let mut line_start: usize = 0;
    let mut i: usize = 0;
    while i < end
        invariant
            line_start <= i <= end <= buf@.len(),
            block == buf@.subrange(0, end as int),
            block_data(block) == first_data_from(block, line_start as int, i as int),
        decreases end - i,
    {
        if buf[i] == '\n' {
            assert(block.subrange(line_start as int, i as int) =~= buf@.subrange(
                line_start as int,
                i as int,
            ));
            let d = line_data_exec(buf, line_start, i);
            if d.is_some() {
                return d;
            }
            line_start = i + 1;
        }
        i = i + 1;
    }
    assert(block.subrange(line_start as int, end as int) =~= buf@.subrange(
        line_start as int,
        end as int,
    ));
    line_data_exec(buf, line_start, end)
}

/// Takes the next event of a server-sent event stream from the front
/// of `buffer`.
///
/// Complete event blocks (those followed by a blank line) are removed
/// from the front of `buffer` one at a time. The first data line of a
/// block yields its payload, or [`SseEvent::Done`] if the payload is
/// `[DONE]`; blocks without a data line are dropped. When no complete
/// block is left, the result is [`SseEvent::Pending`] and the rest of
/// the buffer waits for more input.
pub fn next_sse_data(buffer: &mut Vec<char>) -> (r: SseEvent)
    ensures
        (r@, final(buffer)@) == sse_next(old(buffer)@),
{
    loop
        invariant
            sse_next(old(buffer)@) == sse_next(buffer@),
        decreases buffer@.len(),
    {
        match find_blank(buffer) {
            None => {
                return SseEvent::Pending;
            },
            Some(p) => {
                proof {
                    lemma_find_blank_from(buffer@, 0);
                    assert(p + 1 < buffer@.len());
                }
                let n = buffer.len();
                let d = block_data_exec(buffer, p);
                let rest = copy_range(buffer, p + 2, n);
                assert(rest@ =~= buffer@.skip(p + 2));
                *buffer = rest;
                match d {
                    Some(data) => {
                        if is_done_marker(&data) {
                            return SseEvent::Done;
                        } else {
                            return SseEvent::Data(data);
                        }
                    },
                    None => {},
                }
            },
        }
    }
}


// ---------------------------------------------------------------------
// Newline-delimited JSON (Ollama)
// ---------------------------------------------------------------------

/// The position of the first `c` at or after `i`.
pub open spec fn find_char_from(s: Seq<char>, c: char, i: int) -> Option<int>
    decreases s.len() - i,
{
    if i < 0 || i >= s.len() {
        None
    } else if s[i] == c {
        Some(i)
    } else {
        find_char_from(s, c, i + 1)
    }
}

proof fn lemma_find_char_from(s: Seq<char>, c: char, i: int)
    requires
        0 <= i,
    ensures
        match find_char_from(s, c, i) {
            Some(p) => i <= p < s.len() && s[p] == c,
            None => true,
        },
    decreases s.len() - i,
{
    if i < s.len() && s[i] != c {
        lemma_find_char_from(s, c, i + 1);
    }
}

/// The position of the first `c` in `buf` at or after `from`.
fn find_char(buf: &Vec<char>, c: char, from: usize) -> (r: Option<usize>)
    ensures
        match r {
            Some(p) => find_char_from(buf@, c, from as int) == Some(p as int),
            None => find_char_from(buf@, c, from as int) is None,
        },
{
    let n = buf.len();
    let mut i = from;
    while i < n
        invariant
            n == buf@.len(),
            from <= i,
            find_char_from(buf@, c, from as int) == find_char_from(buf@, c, i as int),
        decreases n - i,
    {
        if buf[i] == c {
            return Some(i);
        }
        i = i + 1;
    }
    None
}

/// What a scan of a newline-delimited stream yields.
pub enum JsonLineSpec {
    /// A line of text, trimmed.
    Line(Seq<char>),
    /// No complete non-empty line yet.
    Pending,
}

/// What [`next_json_line`] yields.
pub enum JsonLine {
    /// A line of text, trimmed.
    Line(Vec<char>),
    /// No complete non-empty line yet.
    Pending,
}

impl View for JsonLine {
    type V = JsonLineSpec;

    open spec fn view(&self) -> JsonLineSpec {
        match self {
            JsonLine::Line(l) => JsonLineSpec::Line(l@),
            JsonLine::Pending => JsonLineSpec::Pending,
        }
    }
}

/// The next line of a newline-delimited stream held in `buf`, and what
/// is left of `buf` after it.
///
/// Complete lines (those ended by `\n`) are taken from the front; an
/// empty line is dropped and the scan goes on, and the first
/// non-empty line is the result, with its surrounding whitespace
/// removed.
pub open spec fn json_line_next(buf: Seq<char>) -> (JsonLineSpec, Seq<char>)
    decreases buf.len(),
{
    match find_char_from(buf, '\n', 0) {
        None => (JsonLineSpec::Pending, buf),
        Some(p) => if 0 <= p < buf.len() {
            let rest = buf.skip(p + 1);
            if p > 0 {
                (JsonLineSpec::Line(trim(buf.subrange(0, p))), rest)
            } else {
                json_line_next(rest)
            }
        } else {
            (JsonLineSpec::Pending, buf)
        },
    }
}

/// Takes the next line of a newline-delimited stream from the front of
/// `buffer`.
///
/// Lines ended by `\n` are removed from the front of `buffer`; empty
/// ones are skipped, and the first non-empty one is returned trimmed.
/// When no complete non-empty line is left, the result is
/// [`JsonLine::Pending`] and the rest of the buffer waits for more
/// input.
pub fn next_json_line(buffer: &mut Vec<char>) -> (r: JsonLine)
    ensures
        (r@, final(buffer)@) == json_line_next(old(buffer)@),
{
    loop
        invariant
            json_line_next(old(buffer)@) == json_line_next(buffer@),
        decreases buffer@.len(),
    {
        match find_char(buffer, '\n', 0) {
            None => {
                return JsonLine::Pending;
            },
            Some(p) => {
                proof {
                    lemma_find_char_from(buffer@, '\n', 0);
                }
                let n = buffer.len();
                let line = if p > 0 {
                    let (a, b) = trim_bounds(buffer, 0, p);
                    proof {
                        lemma_trim_range(buffer@, 0, p as int);
                    }
                    Some(copy_range(buffer, a, b))
                } else {
                    None
                };
                let rest = copy_range(buffer, p + 1, n);
                assert(rest@ =~= buffer@.skip(p + 1));
                *buffer = rest;
                match line {
                    Some(l) => {
                        return JsonLine::Line(l);
                    },
                    None => {},
                }
            },
        }
    }
}

// ---------------------------------------------------------------------
// A streamed JSON array (Gemini)
// ---------------------------------------------------------------------

/// The first index at or after `i` that does not hold ASCII whitespace
/// (or the length of `s`).
pub open spec fn skip_ascii_ws(s: Seq<char>, i: int) -> int
    decreases s.len() - i,
{
    if 0 <= i < s.len() && is_ascii_whitespace(s[i]) {
        skip_ascii_ws(s, i + 1)
    } else {
        i
    }
}

/// Where the search for an object starts: after leading whitespace
/// and an opening `[`, if there is one.
pub open spec fn object_scan_start(s: Seq<char>) -> int {
    let i = skip_ascii_ws(s, 0);
    if i < s.len() && s[i] == '[' {
        i + 1
    } else {
        i
    }
}

/// The span of the first balanced `{ ... }` object found from `i` on,
/// where `depth` counts the braces opened and not yet closed and
/// `start` is where the object began, if it has.
///
/// A `}` closes an object when the count returns to zero after an
/// object has begun; braces are counted wherever they stand, inside
/// strings too.
pub open spec fn object_span_from(s: Seq<char>, i: int, depth: int, start: Option<int>) -> Option<
    (int, int),
>
    decreases s.len() - i,
{
    if i < 0 || i >= s.len() {
        None
    } else if s[i] == '{' {
        object_span_from(
            s,
            i + 1,
            depth + 1,
            match start {
                Some(st) => Some(st),
                None => Some(i),
            },
        )
    } else if s[i] == '}' {
        if depth - 1 == 0 && start is Some {
            Some((start->0, i))
        } else {
            object_span_from(s, i + 1, depth - 1, start)
        }
    } else {
        object_span_from(s, i + 1, depth, start)
    }
}

/// The span `(start, end)` (both inclusive) of the first complete JSON
/// object in a streamed JSON array.
pub open spec fn object_span(s: Seq<char>) -> Option<(int, int)> {
    object_span_from(s, object_scan_start(s), 0, None)
}

proof fn lemma_skip_ascii_ws(s: Seq<char>, i: int)
    requires
        0 <= i,
    ensures
        i <= skip_ascii_ws(s, i),
        i <= s.len() ==> skip_ascii_ws(s, i) <= s.len(),
    decreases s.len() - i,
{
    if 0 <= i < s.len() && is_ascii_whitespace(s[i]) {
        lemma_skip_ascii_ws(s, i + 1);
    }
}

proof fn lemma_object_span_from(s: Seq<char>, i: int, depth: int, start: Option<int>)
    requires
        0 <= i,
        start matches Some(st) ==> 0 <= st < i,
    ensures
        object_span_from(s, i, depth, start) matches Some((a, b)) ==> 0 <= a <= b < s.len() && s[a]
            == '{' || start == Some(a) && 0 <= a <= b < s.len(),
    decreases s.len() - i,
{
    if 0 <= i < s.len() {
        if s[i] == '{' {
            let st = match start {
                Some(st) => Some(st),
                None => Some(i),
            };
            lemma_object_span_from(s, i + 1, depth + 1, st);
        } else if s[i] == '}' {
            if !(depth - 1 == 0 && start is Some) {
                lemma_object_span_from(s, i + 1, depth - 1, start);
            }
        } else {
            lemma_object_span_from(s, i + 1, depth, start);
        }
    }
}

/// Finds the first complete JSON object in a buffer that holds a
/// streamed JSON array, and returns its span `(start, end)`, both
/// inclusive.
///
/// Leading ASCII whitespace and an opening `[` are passed over. Braces
/// are then counted from there on; the object is complete at the `}`
/// that brings the count back to zero once a `{` has been seen.
pub fn next_json_object(buffer: &Vec<char>) -> (r: Option<(usize, usize)>)
    ensures
        match r {
            Some((a, b)) => object_span(buffer@) == Some((a as int, b as int)) && a <= b < buffer@.len(),
            None => object_span(buffer@) is None,
        },
{
    let n = buffer.len();
    let mut i: usize = 0;
    while i < n && ascii_whitespace(buffer[i])
        invariant
            n == buffer@.len(),
            i <= n,
            skip_ascii_ws(buffer@, 0) == skip_ascii_ws(buffer@, i as int),
        decreases n - i,
    {
        i = i + 1;
    }
    if i < n && buffer[i] == '[' {
        i = i + 1;
    }
    assert(object_scan_start(buffer@) == i);
    let mut depth: i128 = 0;
    let mut start: Option<usize> = None;
    let ghost gstart: Option<int> = None;
    while i < n
        invariant
            n == buffer@.len(),
            i <= n,
            -(i as int) <= depth <= i,
            gstart == match start {
                Some(st) => Some(st as int),
                None => None::<int>,
            },
            start matches Some(st) ==> st < i,
            object_span(buffer@) == object_span_from(buffer@, i as int, depth as int, gstart),
        decreases n - i,
    {
        let c = buffer[i];
        if c == '{' {
            if start.is_none() {
                start = Some(i);
                proof {
                    gstart = Some(i as int);
                }
            }
            depth = depth + 1;
        } else if c == '}' {
            depth = depth - 1;
            if depth == 0 && start.is_some() {
                let st = start.unwrap();
                proof {
                    lemma_object_span_from(buffer@, i as int, depth + 1, gstart);
                }
                return Some((st, i));
            }
        }
        i = i + 1;
    }
    None
}

/// What is left of a streamed JSON array after the object that ends
/// at `end` has been taken.
///
/// When the object was read, a comma after it (past ASCII whitespace)
/// goes with it; when it could not be read, only the text up to and
/// including its closing brace is dropped.
pub open spec fn after_object(s: Seq<char>, end: int, accepted: bool) -> Seq<char> {
    if accepted {
        let j = skip_ascii_ws(s, end + 1);
        if j < s.len() && s[j] == ',' {
            s.skip(j + 1)
        } else {
            s.skip(j)
        }
    } else {
        s.skip(end + 1)
    }
}

/// Removes the object that ends at `end` from the front of `buffer`.
///
/// `accepted` says whether the object's text could be read: when it
/// could, the separating comma that follows it is removed too.
pub fn consume_json_object(buffer: &mut Vec<char>, end: usize, accepted: bool)
    requires
        end < old(buffer)@.len(),
    ensures
        final(buffer)@ == after_object(old(buffer)@, end as int, accepted),
{
    let n = buffer.len();
    let cut = if accepted {
        let mut j = end + 1;
        while j < n && ascii_whitespace(buffer[j])
            invariant
                n == buffer@.len(),
                end + 1 <= j <= n,
                skip_ascii_ws(buffer@, end + 1) == skip_ascii_ws(buffer@, j as int),
            decreases n - j,
        {
            j = j + 1;
        }
        if j < n && buffer[j] == ',' {
            j + 1
        } else {
            j
        }
    } else {
        end + 1
    };
    let rest = copy_range(buffer, cut, n);
    assert(rest@ =~= buffer@.skip(cut as int));
    *buffer = rest;
}


// ---------------------------------------------------------------------
// Laws of the scanners
// ---------------------------------------------------------------------

proof fn lemma_find_blank_extend(s: Seq<char>, t: Seq<char>, i: int)
    requires
        0 <= i,
        find_blank_from(s, i) is Some,
    ensures
        find_blank_from(s + t, i) == find_blank_from(s, i),
    decreases s.len() - i,
{
    assert((s + t)[i] == s[i]);
    assert((s + t)[i + 1] == s[i + 1]);
    if !(s[i] == '\n' && s[i + 1] == '\n') {
        lemma_find_blank_extend(s, t, i + 1);
    }
}

proof fn lemma_find_char_extend(s: Seq<char>, t: Seq<char>, c: char, i: int)
    requires
        0 <= i,
        find_char_from(s, c, i) is Some,
    ensures
        find_char_from(s + t, c, i) == find_char_from(s, c, i),
    decreases s.len() - i,
{
    assert((s + t)[i] == s[i]);
    if s[i] != c {
        lemma_find_char_extend(s, t, c, i + 1);
    }
}

/// Server-sent events: what is left of the buffer after a scan is a
/// suffix of it, and when the scan is pending no complete event block
/// is left in it.
pub proof fn lemma_sse_next_keeps_suffix(buf: Seq<char>)
    ensures
        sse_next(buf).1.len() <= buf.len(),
        sse_next(buf).1 == buf.skip(buf.len() - sse_next(buf).1.len()),
        sse_next(buf).0 is Pending ==> find_blank_from(sse_next(buf).1, 0) is None,
    decreases buf.len(),
{
    match find_blank_from(buf, 0) {
        None => {
            assert(buf.skip(0) =~= buf);
        },
        Some(p) => {
            lemma_find_blank_from(buf, 0);
            let rest = buf.skip(p + 2);
            if block_data(buf.subrange(0, p)) is None {
                lemma_sse_next_keeps_suffix(rest);
                let k = rest.len() - sse_next(rest).1.len();
                assert(rest.skip(k) =~= buf.skip(buf.len() - sse_next(rest).1.len()));
            } else {
                assert(rest =~= buf.skip(buf.len() - rest.len()));
            }
        },
    }
}

/// Server-sent events: more input does not change an event that is
/// already complete. If the scan of `buf` yields an event, the scan of
/// `buf` followed by `more` yields the same event and leaves the same
/// rest followed by `more`.
pub proof fn lemma_sse_next_complete_event_stable(buf: Seq<char>, more: Seq<char>)
    requires
        !(sse_next(buf).0 is Pending),
    ensures
        sse_next(buf + more) == (sse_next(buf).0, sse_next(buf).1 + more),
    decreases buf.len(),
{
    let p = find_blank_from(buf, 0)->0;
    lemma_find_blank_from(buf, 0);
    lemma_find_blank_extend(buf, more, 0);
    let all = buf + more;
    assert(all.subrange(0, p) =~= buf.subrange(0, p));
    assert(all.skip(p + 2) =~= buf.skip(p + 2) + more);
    if block_data(buf.subrange(0, p)) is None {
        lemma_sse_next_complete_event_stable(buf.skip(p + 2), more);
    }
}

/// Server-sent events: input that is pending is kept. If the scan of
/// `buf` is pending, scanning `buf` followed by `more` is the same as
/// scanning what the first scan left, followed by `more`.
pub proof fn lemma_sse_next_pending_carries_over(buf: Seq<char>, more: Seq<char>)
    requires
        sse_next(buf).0 is Pending,
    ensures
        sse_next(buf + more) == sse_next(sse_next(buf).1 + more),
    decreases buf.len(),
{
    match find_blank_from(buf, 0) {
        None => {},
        Some(p) => {
            lemma_find_blank_from(buf, 0);
            lemma_find_blank_extend(buf, more, 0);
            let all = buf + more;
            assert(all.subrange(0, p) =~= buf.subrange(0, p));
            assert(all.skip(p + 2) =~= buf.skip(p + 2) + more);
            lemma_sse_next_pending_carries_over(buf.skip(p + 2), more);
        },
    }
}

/// Newline-delimited JSON: what is left of the buffer after a scan is
/// a suffix of it, and when the scan is pending no line end is left
/// in it.
pub proof fn lemma_json_line_next_keeps_suffix(buf: Seq<char>)
    ensures
        json_line_next(buf).1.len() <= buf.len(),
        json_line_next(buf).1 == buf.skip(buf.len() - json_line_next(buf).1.len()),
        json_line_next(buf).0 is Pending ==> find_char_from(json_line_next(buf).1, '\n', 0) is None,
    decreases buf.len(),
{
    match find_char_from(buf, '\n', 0) {
        None => {
            assert(buf.skip(0) =~= buf);
        },
        Some(p) => {
            lemma_find_char_from(buf, '\n', 0);
            let rest = buf.skip(p + 1);
            if p == 0 {
                lemma_json_line_next_keeps_suffix(rest);
                let k = rest.len() - json_line_next(rest).1.len();
                assert(rest.skip(k) =~= buf.skip(buf.len() - json_line_next(rest).1.len()));
            } else {
                assert(rest =~= buf.skip(buf.len() - rest.len()));
            }
        },
    }
}

/// Newline-delimited JSON: more input does not change a line that is
/// already complete.
pub proof fn lemma_json_line_next_complete_line_stable(buf: Seq<char>, more: Seq<char>)
    requires
        !(json_line_next(buf).0 is Pending),
    ensures
        json_line_next(buf + more) == (json_line_next(buf).0, json_line_next(buf).1 + more),
    decreases buf.len(),
{
    let p = find_char_from(buf, '\n', 0)->0;
    lemma_find_char_from(buf, '\n', 0);
    lemma_find_char_extend(buf, more, '\n', 0);
    let all = buf + more;
    assert(all.subrange(0, p) =~= buf.subrange(0, p));
    assert(all.skip(p + 1) =~= buf.skip(p + 1) + more);
    if p == 0 {
        lemma_json_line_next_complete_line_stable(buf.skip(p + 1), more);
    }
}

/// Newline-delimited JSON: input that is pending is kept.
pub proof fn lemma_json_line_next_pending_carries_over(buf: Seq<char>, more: Seq<char>)
    requires
        json_line_next(buf).0 is Pending,
    ensures
        json_line_next(buf + more) == json_line_next(json_line_next(buf).1 + more),
    decreases buf.len(),
{
    match find_char_from(buf, '\n', 0) {
        None => {},
        Some(p) => {
            lemma_find_char_from(buf, '\n', 0);
            lemma_find_char_extend(buf, more, '\n', 0);
            let all = buf + more;
            assert(all.skip(p + 1) =~= buf.skip(p + 1) + more);
            lemma_json_line_next_pending_carries_over(buf.skip(p + 1), more);
        },
    }
}

proof fn lemma_skip_ascii_ws_extend(s: Seq<char>, t: Seq<char>, i: int)
    requires
        0 <= i,
        skip_ascii_ws(s, i) < s.len(),
    ensures
        skip_ascii_ws(s + t, i) == skip_ascii_ws(s, i),
    decreases s.len() - i,
{
    if 0 <= i < s.len() {
        assert((s + t)[i] == s[i]);
        if is_ascii_whitespace(s[i]) {
            lemma_skip_ascii_ws_extend(s, t, i + 1);
        }
    }
}

proof fn lemma_object_span_from_extend(
    s: Seq<char>,
    t: Seq<char>,
    i: int,
    depth: int,
    start: Option<int>,
)
    requires
        object_span_from(s, i, depth, start) is Some,
    ensures
        object_span_from(s + t, i, depth, start) == object_span_from(s, i, depth, start),
    decreases s.len() - i,
{
    assert((s + t)[i] == s[i]);
    if s[i] == '{' {
        let st = match start {
            Some(st) => Some(st),
            None => Some(i),
        };
        lemma_object_span_from_extend(s, t, i + 1, depth + 1, st);
    } else if s[i] == '}' {
        if !(depth - 1 == 0 && start is Some) {
            lemma_object_span_from_extend(s, t, i + 1, depth - 1, start);
        }
    } else {
        lemma_object_span_from_extend(s, t, i + 1, depth, start);
    }
}

/// Streamed JSON array: more input does not change the first complete
/// object. If an object is complete in `buf`, the same object is found
/// in `buf` followed by `more`.
pub proof fn lemma_object_span_stable(buf: Seq<char>, more: Seq<char>)
    requires
        object_span(buf) is Some,
    ensures
        object_span(buf + more) == object_span(buf),
{
    lemma_skip_ascii_ws(buf, 0);
    let i = skip_ascii_ws(buf, 0);
    if i >= buf.len() {
        assert(object_scan_start(buf) >= buf.len());
        assert(object_span(buf) is None);
    } else {
        lemma_skip_ascii_ws_extend(buf, more, 0);
        assert((buf + more)[i] == buf[i]);
        assert(object_scan_start(buf + more) == object_scan_start(buf));
        lemma_object_span_from_extend(buf, more, object_scan_start(buf), 0, None);
    }
}


proof fn lemma_object_span_from_delimits(s: Seq<char>, i: int, depth: int, start: Option<int>)
    requires
        0 <= i,
        start matches Some(st) ==> 0 <= st < i && st < s.len() && s[st] == '{',
    ensures
        object_span_from(s, i, depth, start) matches Some((a, b)) ==> {
            &&& 0 <= a < b < s.len()
            &&& s[a] == '{'
            &&& s[b] == '}'
            &&& start matches Some(st) ==> a == st
            &&& start is None ==> i <= a
        },
    decreases s.len() - i,
{
    if 0 <= i < s.len() {
        if s[i] == '{' {
            let st = match start {
                Some(st) => Some(st),
                None => Some(i),
            };
            lemma_object_span_from_delimits(s, i + 1, depth + 1, st);
        } else if s[i] == '}' {
            if !(depth - 1 == 0 && start is Some) {
                lemma_object_span_from_delimits(s, i + 1, depth - 1, start);
            }
        } else {
            lemma_object_span_from_delimits(s, i + 1, depth, start);
        }
    }
}

/// Streamed JSON array: the span found is the text of an object. It
/// starts with `{` at or after the leading whitespace and bracket, and
/// ends with `}`.
pub proof fn lemma_object_span_delimits(s: Seq<char>)
    ensures
        object_span(s) matches Some((a, b)) ==> {
            &&& object_scan_start(s) <= a < b < s.len()
            &&& s[a] == '{'
            &&& s[b] == '}'
        },
{
    lemma_skip_ascii_ws(s, 0);
    lemma_object_span_from_delimits(s, object_scan_start(s), 0, None);
}


// ---------------------------------------------------------------------
// Laws stated on concrete shapes of input
// ---------------------------------------------------------------------

proof fn lemma_skip_forward_whitespace(s: Seq<char>, i: int, hi: int)
    requires
        0 <= i <= hi <= s.len(),
    ensures
        i <= skip_ws_forward(s, i, hi) <= hi,
        forall|k: int| i <= k < skip_ws_forward(s, i, hi) ==> is_unicode_whitespace(#[trigger] s[k]),
        skip_ws_forward(s, i, hi) < hi ==> !is_unicode_whitespace(s[skip_ws_forward(s, i, hi)]),
    decreases hi - i,
{
    if i < hi && is_unicode_whitespace(s[i]) {
        lemma_skip_forward_whitespace(s, i + 1, hi);
    }
}

proof fn lemma_skip_backward_whitespace(s: Seq<char>, lo: int, hi: int)
    requires
        0 <= lo <= hi <= s.len(),
    ensures
        lo <= skip_ws_backward(s, lo, hi) <= hi,
        forall|k: int| skip_ws_backward(s, lo, hi) <= k < hi ==> is_unicode_whitespace(#[trigger] s[k]),
        lo < skip_ws_backward(s, lo, hi) ==> !is_unicode_whitespace(s[skip_ws_backward(s, lo, hi) - 1]),
    decreases hi - lo,
{
    if lo < hi && is_unicode_whitespace(s[hi - 1]) {
        lemma_skip_backward_whitespace(s, lo, hi - 1);
    }
}

/// Trimming removes whitespace at both ends and nothing else: the
/// result is a contiguous part `s[a..b]` of `s`, everything before `a`
/// and from `b` on is whitespace, and a non-empty result neither starts
/// nor ends with whitespace.
pub proof fn lemma_trim(s: Seq<char>)
    ensures
        exists|a: int, b: int|
            #![trigger s.subrange(a, b)]
            {
                &&& 0 <= a <= b <= s.len()
                &&& trim(s) == s.subrange(a, b)
                &&& forall|k: int| 0 <= k < a ==> is_unicode_whitespace(#[trigger] s[k])
                &&& forall|k: int| b <= k < s.len() ==> is_unicode_whitespace(#[trigger] s[k])
                &&& a < b ==> !is_unicode_whitespace(s[a]) && !is_unicode_whitespace(s[b - 1])
            },
{
    let n = s.len() as int;
    let a = skip_ws_forward(s, 0, n);
    lemma_skip_forward_whitespace(s, 0, n);
    let b = skip_ws_backward(s, a, n);
    lemma_skip_backward_whitespace(s, a, n);
    if a < b {
        assert(a < n);
    }
    assert(trim(s) == s.subrange(a, b));
}

/// A sequence that neither starts nor ends with whitespace is its own
/// trim.
pub proof fn lemma_trim_clean(s: Seq<char>)
    requires
        s.len() > 0,
        !is_unicode_whitespace(s[0]),
        !is_unicode_whitespace(s[s.len() - 1]),
    ensures
        trim(s) == s,
{
    let n = s.len() as int;
    assert(skip_ws_forward(s, 0, n) == 0);
    assert(skip_ws_backward(s, 0, n) == n);
    assert(s.subrange(0, n) =~= s);
}

proof fn lemma_find_blank_at(s: Seq<char>, i: int, p: int)
    requires
        0 <= i <= p,
        p + 1 < s.len(),
        s[p] == '\n' && s[p + 1] == '\n',
        forall|k: int| i <= k < p ==> s[k] != '\n',
    ensures
        find_blank_from(s, i) == Some(p),
    decreases p - i,
{
    if i < p {
        lemma_find_blank_at(s, i + 1, p);
    }
}

proof fn lemma_first_data_single_line(block: Seq<char>, i: int)
    requires
        0 <= i <= block.len(),
        forall|k: int| 0 <= k < block.len() ==> block[k] != '\n',
    ensures
        first_data_from(block, 0, i) == line_data(block),
    decreases block.len() - i,
{
    if i < block.len() {
        lemma_first_data_single_line(block, i + 1);
    } else {
        assert(block.subrange(0, block.len() as int) =~= block);
    }
}

/// Server-sent events: a complete event block made of the line
/// `data: ` followed by a payload `d` yields exactly `d` (or the end of
/// the stream, for `[DONE]`), and what follows the blank line is left
/// in the buffer. The payload is the whole rest of the line, spaces
/// included; it must not be empty, contain a line break, or start or
/// end with whitespace (which trimming removes).
pub proof fn lemma_sse_data_block(d: Seq<char>, rest: Seq<char>)
    requires
        d.len() > 0,
        forall|k: int| 0 <= k < d.len() ==> d[k] != '\n',
        !is_unicode_whitespace(d[0]),
        !is_unicode_whitespace(d[d.len() - 1]),
    ensures
        d != done_marker() ==> sse_next(data_prefix() + d + seq!['\n', '\n'] + rest) == (
            SseEventSpec::Data(d),
            rest,
        ),
        d == done_marker() ==> sse_next(data_prefix() + d + seq!['\n', '\n'] + rest) == (
            SseEventSpec::Done,
            rest,
        ),
{
    let line = data_prefix() + d;
    let buf = line + seq!['\n', '\n'] + rest;
    let p = line.len() as int;
    assert forall|k: int| 0 <= k < p implies buf[k] != '\n' by {
        assert(buf[k] == line[k]);
        if k >= 6 {
            assert(line[k] == d[k - 6]);
        }
    }
    assert(buf[p] == '\n' && buf[p + 1] == '\n');
    lemma_find_blank_at(buf, 0, p);
    assert(buf.subrange(0, p) =~= line);
    assert(buf.skip(p + 2) =~= rest);
    assert forall|k: int| 0 <= k < line.len() implies line[k] != '\n' by {
        if k >= 6 {
            assert(line[k] == d[k - 6]);
        }
    }
    lemma_first_data_single_line(line, 0);
    assert(line[line.len() - 1] == d[d.len() - 1]);
    lemma_trim_clean(line);
    assert(line.subrange(0, 6) =~= data_prefix());
    assert(line.skip(6) =~= d);
}

proof fn lemma_find_char_at(s: Seq<char>, c: char, i: int, p: int)
    requires
        0 <= i <= p < s.len(),
        s[p] == c,
        forall|k: int| i <= k < p ==> s[k] != c,
    ensures
        find_char_from(s, c, i) == Some(p),
    decreases p - i,
{
    if i < p {
        lemma_find_char_at(s, c, i + 1, p);
    }
}

/// Newline-delimited JSON: a non-empty line `l` ended by a line break
/// yields `l` trimmed, and what follows the line break is left in the
/// buffer; an empty line is passed over.
pub proof fn lemma_json_line(l: Seq<char>, rest: Seq<char>)
    requires
        forall|k: int| 0 <= k < l.len() ==> l[k] != '\n',
    ensures
        l.len() > 0 ==> json_line_next(l + seq!['\n'] + rest) == (JsonLineSpec::Line(trim(l)), rest),
        l.len() == 0 ==> json_line_next(l + seq!['\n'] + rest) == json_line_next(rest),
{
    let buf = l + seq!['\n'] + rest;
    let p = l.len() as int;
    assert forall|k: int| 0 <= k < p implies buf[k] != '\n' by {
        assert(buf[k] == l[k]);
    }
    lemma_find_char_at(buf, '\n', 0, p);
    assert(buf.subrange(0, p) =~= l);
    assert(buf.skip(p + 1) =~= rest);
}


proof fn lemma_no_blank(s: Seq<char>, i: int)
    requires
        0 <= i,
        forall|k: int| i <= k && k + 1 < s.len() ==> !(s[k] == '\n' && #[trigger] s[k + 1] == '\n'),
    ensures
        find_blank_from(s, i) is None,
    decreases s.len() - i,
{
    if i + 1 < s.len() {
        lemma_no_blank(s, i + 1);
    }
}

/// Server-sent events: a buffer without a blank line holds no complete
/// event; the scan is pending and keeps the whole buffer.
pub proof fn lemma_sse_incomplete(buf: Seq<char>)
    requires
        forall|k: int| 0 <= k && k + 1 < buf.len() ==> !(buf[k] == '\n' && #[trigger] buf[k + 1] == '\n'),
    ensures
        sse_next(buf) == (SseEventSpec::Pending, buf),
{
    lemma_no_blank(buf, 0);
}

/// Server-sent events: a complete event block of one line that is not
/// a data line (a comment, or an `event:` line) is passed over, and the
/// scan goes on with what follows it.
pub proof fn lemma_sse_skips_other_lines(b: Seq<char>, rest: Seq<char>)
    requires
        forall|k: int| 0 <= k < b.len() ==> b[k] != '\n',
        line_data(b) is None,
    ensures
        sse_next(b + seq!['\n', '\n'] + rest) == sse_next(rest),
{
    let buf = b + seq!['\n', '\n'] + rest;
    let p = b.len() as int;
    assert forall|k: int| 0 <= k < p implies buf[k] != '\n' by {
        assert(buf[k] == b[k]);
    }
    lemma_find_blank_at(buf, 0, p);
    assert(buf.subrange(0, p) =~= b);
    assert(buf.skip(p + 2) =~= rest);
    lemma_first_data_single_line(b, 0);
}

proof fn lemma_no_char(s: Seq<char>, c: char, i: int)
    requires
        0 <= i,
        forall|k: int| i <= k < s.len() ==> s[k] != c,
    ensures
        find_char_from(s, c, i) is None,
    decreases s.len() - i,
{
    if i < s.len() {
        lemma_no_char(s, c, i + 1);
    }
}

/// Newline-delimited JSON: a buffer without a line break holds no
/// complete line; the scan is pending and keeps the whole buffer.
pub proof fn lemma_json_line_incomplete(buf: Seq<char>)
    requires
        forall|k: int| 0 <= k < buf.len() ==> buf[k] != '\n',
    ensures
        json_line_next(buf) == (JsonLineSpec::Pending, buf),
{
    lemma_no_char(buf, '\n', 0);
}

proof fn lemma_skip_ascii_ws_over(s: Seq<char>, i: int, k: int)
    requires
        0 <= i <= k <= s.len(),
        forall|m: int| i <= m < k ==> is_ascii_whitespace(#[trigger] s[m]),
        k < s.len() ==> !is_ascii_whitespace(s[k]),
    ensures
        skip_ascii_ws(s, i) == k,
    decreases k - i,
{
    if i < k {
        lemma_skip_ascii_ws_over(s, i + 1, k);
    }
}

/// Streamed JSON array: taking an object that was read removes the
/// object, the whitespace after it and one separating comma; taking an
/// object that could not be read removes the object and nothing more.
pub proof fn lemma_after_object_shapes(x: Seq<char>, w: Seq<char>, r: Seq<char>)
    requires
        x.len() > 0,
        forall|m: int| 0 <= m < w.len() ==> is_ascii_whitespace(#[trigger] w[m]),
    ensures
        r.len() > 0 && r[0] == ',' ==> after_object(x + w + r, x.len() - 1, true) == r.skip(1),
        (r.len() == 0 || (r[0] != ',' && !is_ascii_whitespace(r[0]))) ==> after_object(
            x + w + r,
            x.len() - 1,
            true,
        ) == r,
        after_object(x + w + r, x.len() - 1, false) == w + r,
{
    let s = x + w + r;
    let n = x.len() as int;
    let k = n + w.len();
    assert forall|m: int| n <= m < k implies is_ascii_whitespace(#[trigger] s[m]) by {
        assert(s[m] == w[m - n]);
    }
    if r.len() > 0 {
        assert(s[k] == r[0]);
    }
    if r.len() == 0 || (r[0] != ',' && !is_ascii_whitespace(r[0])) || r[0] == ',' {
        lemma_skip_ascii_ws_over(s, n, k);
    }
    if r.len() > 0 {
        assert(s.skip(k + 1) =~= r.skip(1));
    }
    assert(s.skip(k) =~= r);
    assert(s.skip(n) =~= w + r);
}

proof fn lemma_object_span_no_braces(s: Seq<char>, i: int, k: int, depth: int, start: Option<int>)
    requires
        0 <= i <= k <= s.len(),
        forall|m: int| i <= m < k ==> #[trigger] s[m] != '{' && s[m] != '}',
    ensures
        object_span_from(s, i, depth, start) == object_span_from(s, k, depth, start),
    decreases k - i,
{
    if i < k {
        lemma_object_span_no_braces(s, i + 1, k, depth, start);
    }
}

/// Streamed JSON array: the first object is found from its opening
/// brace to the closing one; text before it without braces (whitespace,
/// an opening bracket, a comma) is passed over. Here the object holds
/// no inner braces.
pub proof fn lemma_object_span_flat(p: Seq<char>, m: Seq<char>, r: Seq<char>)
    requires
        forall|k: int| 0 <= k < p.len() ==> #[trigger] p[k] != '{' && p[k] != '}',
        forall|k: int| 0 <= k < m.len() ==> #[trigger] m[k] != '{' && m[k] != '}',
    ensures
        object_span(p + seq!['{'] + m + seq!['}'] + r) == Some((p.len() as int, (p.len() + m.len() + 1) as int)),
{
    let s = p + seq!['{'] + m + seq!['}'] + r;
    let a = p.len() as int;
    let b = a + m.len() + 1;
    assert(s[a] == '{');
    assert(s[b] == '}');
    lemma_skip_ascii_ws(s, 0);
    let i0 = skip_ascii_ws(s, 0);
    if i0 > a {
        lemma_skip_ascii_ws_bound(s, 0, a);
    }
    assert(object_scan_start(s) <= a);
    assert forall|k: int| object_scan_start(s) <= k < a implies #[trigger] s[k] != '{' && s[k] != '}' by {
        assert(s[k] == p[k]);
    }
    lemma_object_span_no_braces(s, object_scan_start(s), a, 0, None);
    assert forall|k: int| a + 1 <= k < b implies #[trigger] s[k] != '{' && s[k] != '}' by {
        assert(s[k] == m[k - a - 1]);
    }
    lemma_object_span_no_braces(s, a + 1, b, 1, Some(a));
}

proof fn lemma_skip_ascii_ws_bound(s: Seq<char>, i: int, a: int)
    requires
        0 <= i <= a < s.len(),
        !is_ascii_whitespace(s[a]),
    ensures
        skip_ascii_ws(s, i) <= a,
    decreases a - i,
{
    if i < a && is_ascii_whitespace(s[i]) {
        lemma_skip_ascii_ws_bound(s, i + 1, a);
    }
}

} // verus!
