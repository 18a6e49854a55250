//! Delimiter nesting depth of Rust source, ignoring strings and comments.
//!
//! Recursive-descent parsers can overflow the stack on pathologically nested
//! input. Since scanned repositories are untrusted, deeply nested sources are
//! rejected before they reach the parser. The scan here is a small byte-level
//! lexer: it skips line and (nested) block comments, string, char and raw
//! string literals, and counts `(`, `[`, `{` against `)`, `]`, `}`.
use vstd::prelude::*;
use vstd::string::StringSliceAdditionalSpecFns;

verus! {

/// End of a `"..."` literal whose body starts at `i` (just past the closing quote).
pub open spec fn string_end(b: Seq<u8>, i: int) -> int
    decreases b.len() - i,
{
    if i >= b.len() {
        b.len() as int
    } else if b[i] == 0x5cu8 {
        if b.len() - i >= 2 {
            string_end(b, i + 2)
        } else {
            b.len() as int
        }
    } else if b[i] == 0x22u8 {
        i + 1
    } else {
        string_end(b, i + 1)
    }
}

/// First position at or after `j` holding `}` (or the end).
pub open spec fn brace_end(b: Seq<u8>, j: int) -> int
    decreases b.len() - j,
{
    if j >= b.len() || b[j] == 0x7du8 {
        j
    } else {
        brace_end(b, j + 1)
    }
}

/// Where scanning resumes after a `'` whose next byte is at `i`: past a char
/// literal, or at `i` itself when the quote starts a lifetime.
pub open spec fn char_literal_end(b: Seq<u8>, i: int) -> int {
    let n = b.len() as int;
    if i >= n {
        i
    } else if b[i] == 0x5cu8 {
        let j0 = i + 1;
        let j = if j0 < n && b[j0] == 0x75u8 {
            let j1 = j0 + 1;
            if j1 < n && b[j1] == 0x7bu8 {
                let k = brace_end(b, j1);
                if k < n {
                    k + 1
                } else {
                    k
                }
            } else {
                j1
            }
        } else {
            j0 + 1
        };
        if j < n && b[j] == 0x27u8 {
            j + 1
        } else {
            j
        }
    } else if i + 1 < n && b[i + 1] == 0x27u8 {
        i + 2
    } else {
        i
    }
}

/// First position at or after `i` holding a newline (or the end).
pub open spec fn line_end(b: Seq<u8>, i: int) -> int
    decreases b.len() - i,
{
    if i >= b.len() || b[i] == 0x0au8 {
        i
    } else {
        line_end(b, i + 1)
    }
}

/// End of a block comment body starting at `i` at nesting `level`.
pub open spec fn block_end(b: Seq<u8>, i: int, level: nat) -> int
    decreases b.len() - i,
{
    let n = b.len() as int;
    if i >= n || level == 0 {
        i
    } else if i + 1 < n && b[i] == 0x2fu8 && b[i + 1] == 0x2au8 {
        block_end(b, i + 2, level + 1)
    } else if i + 1 < n && b[i] == 0x2au8 && b[i + 1] == 0x2fu8 {
        block_end(b, i + 2, (level - 1) as nat)
    } else {
        block_end(b, i + 1, level)
    }
}

/// Number of `#` bytes at `j`, at most `limit`.
pub open spec fn hashes_at(b: Seq<u8>, j: int, limit: nat) -> nat
    decreases limit,
{
    if limit == 0 || j >= b.len() || j < 0 || b[j] != 0x23u8 {
        0
    } else {
        1 + hashes_at(b, j + 1, (limit - 1) as nat)
    }
}

/// Number of `#` bytes at `j`.
pub open spec fn hash_run(b: Seq<u8>, j: int) -> nat
    decreases b.len() - j,
{
    if j < 0 || j >= b.len() || b[j] != 0x23u8 {
        0
    } else {
        1 + hash_run(b, j + 1)
    }
}

/// End of a raw string body starting at `j`, closed by `"` and `hashes` `#`s.
pub open spec fn raw_end(b: Seq<u8>, j: int, hashes: nat) -> int
    decreases b.len() - j,
{
    if j >= b.len() {
        j
    } else if b[j] == 0x22u8 && hashes_at(b, j + 1, hashes) == hashes {
        j + 1 + hashes
    } else {
        raw_end(b, j + 1, hashes)
    }
}

/// Where scanning resumes after an `r` or `b` at `i`.
pub open spec fn raw_string_next(b: Seq<u8>, i: int) -> int {
    let n = b.len() as int;
    if b[i] == 0x62u8 && (i + 1 >= n || b[i + 1] != 0x72u8) {
        i + 1
    } else {
        let j = if b[i] == 0x62u8 {
            i + 2
        } else {
            i + 1
        };
        let h = hash_run(b, j);
        let q = j + h;
        if q < n && b[q] == 0x22u8 {
            raw_end(b, q + 1, h)
        } else {
            i + 1
        }
    }
}

/// Clamps a position to the end of the input.
pub open spec fn clamp_to(x: int, n: int) -> int {
    if x > n {
        n
    } else {
        x
    }
}

/// Position at which scanning resumes after the token starting at `i`.
pub open spec fn token_end(b: Seq<u8>, i: int) -> int {
    let n = b.len() as int;
    let c = b[i];
    if c == 0x2fu8 && i + 1 < n && b[i + 1] == 0x2fu8 {
        line_end(b, i + 2)
    } else if c == 0x2fu8 && i + 1 < n && b[i + 1] == 0x2au8 {
        block_end(b, i + 2, 1)
    } else if c == 0x22u8 {
        string_end(b, i + 1)
    } else if c == 0x27u8 {
        char_literal_end(b, i + 1)
    } else if c == 0x72u8 || c == 0x62u8 {
        raw_string_next(b, i)
    } else {
        i + 1
    }
}

/// Whether a byte opens a delimiter.
pub open spec fn is_open(c: u8) -> bool {
    c == 0x28u8 || c == 0x5bu8 || c == 0x7bu8
}

/// Whether a byte closes a delimiter.
pub open spec fn is_close(c: u8) -> bool {
    c == 0x29u8 || c == 0x5du8 || c == 0x7du8
}

/// Depth after the token at `i`: one deeper for an opener, one shallower
/// (never below zero) for a closer.
pub open spec fn depth_after(c: u8, depth: nat) -> nat {
    if is_open(c) {
        depth + 1
    } else if is_close(c) {
        if depth > 0 {
            (depth - 1) as nat
        } else {
            0
        }
    } else {
        depth
    }
}

/// Maximum depth reached scanning from `i` with current `depth` and best `max`.
pub open spec fn depth_scan(b: Seq<u8>, i: int, depth: nat, max: nat) -> nat
    decreases b.len() - i,
{
    let n = b.len() as int;
    if i < 0 || i >= n {
        max
    } else {
        let nx = clamp_to(token_end(b, i), n);
        let d = depth_after(b[i], depth);
        let m = if d > max {
            d
        } else {
            max
        };
        if nx <= i {
            m
        } else {
            depth_scan(b, nx, d, m)
        }
    }
}

/// The maximum delimiter nesting depth of a byte string.
pub open spec fn max_depth_spec(b: Seq<u8>) -> nat {
    depth_scan(b, 0, 0, 0)
}

proof fn lemma_line_end_ge(b: Seq<u8>, i: int)
    ensures
        line_end(b, i) >= i,
    decreases b.len() - i,
{
    if i < b.len() && b[i] != 0x0au8 {
        lemma_line_end_ge(b, i + 1);
    }
}

proof fn lemma_block_end_ge(b: Seq<u8>, i: int, level: nat)
    ensures
        block_end(b, i, level) >= i,
    decreases b.len() - i,
{
    let n = b.len() as int;
    if i < n && level != 0 {
        if i + 1 < n && b[i] == 0x2fu8 && b[i + 1] == 0x2au8 {
            lemma_block_end_ge(b, i + 2, level + 1);
        } else if i + 1 < n && b[i] == 0x2au8 && b[i + 1] == 0x2fu8 {
            lemma_block_end_ge(b, i + 2, (level - 1) as nat);
        } else {
            lemma_block_end_ge(b, i + 1, level);
        }
    }
}

proof fn lemma_string_end_ge(b: Seq<u8>, i: int)
    requires
        i <= b.len(),
    ensures
        string_end(b, i) >= i,
    decreases b.len() - i,
{
    if i < b.len() {
        if b[i] == 0x5cu8 {
            if b.len() - i >= 2 {
                lemma_string_end_ge(b, i + 2);
            }
        } else if b[i] != 0x22u8 {
            lemma_string_end_ge(b, i + 1);
        }
    }
}

proof fn lemma_raw_end_ge(b: Seq<u8>, j: int, hashes: nat)
    ensures
        raw_end(b, j, hashes) >= j,
    decreases b.len() - j,
{
    if j < b.len() && !(b[j] == 0x22u8 && hashes_at(b, j + 1, hashes) == hashes) {
        lemma_raw_end_ge(b, j + 1, hashes);
    }
}

proof fn lemma_brace_end_ge(b: Seq<u8>, j: int)
    ensures
        brace_end(b, j) >= j,
    decreases b.len() - j,
{
    if j < b.len() && b[j] != 0x7du8 {
        lemma_brace_end_ge(b, j + 1);
    }
}

/// Every token moves the scan forward.
proof fn lemma_token_progress(b: Seq<u8>, i: int)
    requires
        0 <= i < b.len(),
    ensures
        token_end(b, i) > i,
{
    lemma_line_end_ge(b, i + 2);
    lemma_block_end_ge(b, i + 2, 1);
    lemma_string_end_ge(b, i + 1);
    lemma_brace_end_ge(b, i + 3);
    let n = b.len() as int;
    let c = b[i];
    if (c == 0x72u8 || c == 0x62u8) && !(c == 0x62u8 && (i + 1 >= n || b[i + 1] != 0x72u8)) {
        let j = if c == 0x62u8 {
            i + 2
        } else {
            i + 1
        };
        let h = hash_run(b, j);
        lemma_raw_end_ge(b, j + h + 1, h);
    }
}

/// Skips a `"..."` literal body starting at `i`.
fn skip_string(bytes: &[u8], from: usize) -> (r: usize)
    requires
        from <= bytes@.len(),
    ensures
        r == string_end(bytes@, from as int),
        from <= r <= bytes@.len(),
{
    let n = bytes.len();
    let mut i = from;
    while i < n
        invariant
            from <= i <= n,
            n == bytes@.len(),
            string_end(bytes@, from as int) == string_end(bytes@, i as int),
        decreases n - i,
    {
        if bytes[i] == 0x5cu8 {
            if n - i >= 2 {
                i = i + 2;
            } else {
                assert(string_end(bytes@, i as int) == n);
                return n;
            }
        } else if bytes[i] == 0x22u8 {
            return i + 1;
        } else {
            i = i + 1;
        }
    }
    n
}

/// Skips a char literal whose body starts at `i`; a lifetime is left in place.
fn skip_char_literal(bytes: &[u8], i: usize) -> (r: usize)
    requires
        i <= bytes@.len(),
    ensures
        r == clamp_to(char_literal_end(bytes@, i as int), bytes@.len() as int),
{
    let n = bytes.len();
    if i >= n {
        return i;
    }
    if bytes[i] == 0x5cu8 {
        let j0 = i + 1;
        let mut j: usize;
        if j0 < n && bytes[j0] == 0x75u8 {
            j = j0 + 1;
            if j < n && bytes[j] == 0x7bu8 {
                let ghost s = j as int;
                while j < n && bytes[j] != 0x7du8
                    invariant
                        s <= j <= n,
                        n == bytes@.len(),
                        brace_end(bytes@, s) == brace_end(bytes@, j as int),
                    decreases n - j,
                {
                    j = j + 1;
                }
                if j < n {
                    j = j + 1;
                }
            }
        } else if j0 < n {
            j = j0 + 1;
        } else {
            return n;
        }
        if j < n && bytes[j] == 0x27u8 {
            j + 1
        } else {
            j
        }
    } else if n - i >= 2 && bytes[i + 1] == 0x27u8 {
        i + 2
    } else {
        i
    }
}

/// Skips a line comment body starting at `i`.
fn skip_line(bytes: &[u8], i: usize) -> (r: usize)
    requires
        i <= bytes@.len(),
    ensures
        r == line_end(bytes@, i as int),
        r <= bytes@.len(),
{
    let n = bytes.len();
    let ghost s = i as int;
    let mut i = i;
    while i < n && bytes[i] != 0x0au8
        invariant
            s <= i <= n,
            n == bytes@.len(),
            line_end(bytes@, s) == line_end(bytes@, i as int),
        decreases n - i,
    {
        i = i + 1;
    }
    i
}

/// Skips a (nested) block comment body starting at `i`.
fn skip_block(bytes: &[u8], i: usize) -> (r: usize)
    requires
        i <= bytes@.len(),
    ensures
        r == block_end(bytes@, i as int, 1),
        r <= bytes@.len(),
{
    let n = bytes.len();
    let ghost s = i as int;
    let mut i = i;
    let mut level: usize = 1;
    while i < n && level > 0
        invariant
            s <= i <= n,
            n == bytes@.len(),
            level <= i + 1,
            block_end(bytes@, s, 1) == block_end(bytes@, i as int, level as nat),
        decreases n - i,
    {
        if n - i >= 2 && bytes[i] == 0x2fu8 && bytes[i + 1] == 0x2au8 {
            level = level + 1;
            i = i + 2;
        } else if n - i >= 2 && bytes[i] == 0x2au8 && bytes[i + 1] == 0x2fu8 {
            level = level - 1;
            i = i + 2;
        } else {
            i = i + 1;
        }
    }
    i
}

/// Skips a raw (byte) string starting with the `r` or `b` at `i`; any other
/// token starting with these letters moves one byte forward.
fn skip_raw(bytes: &[u8], i: usize) -> (r: usize)
    requires
        i < bytes@.len(),
        bytes@[i as int] == 0x72u8 || bytes@[i as int] == 0x62u8,
    ensures
        r == raw_string_next(bytes@, i as int),
        r <= bytes@.len(),
{
    let n = bytes.len();
    if bytes[i] == 0x62u8 && (n - i < 2 || bytes[i + 1] != 0x72u8) {
        return i + 1;
    }
    let mut j = if bytes[i] == 0x62u8 {
        i + 2
    } else {
        i + 1
    };
    let ghost j_start = j as int;
    let mut hashes: usize = 0;
    while j < n && bytes[j] == 0x23u8
        invariant
            j_start <= j <= n,
            n == bytes@.len(),
            j == j_start + hashes,
            hash_run(bytes@, j_start) == hashes + hash_run(bytes@, j as int),
        decreases n - j,
    {
        hashes = hashes + 1;
        j = j + 1;
    }
    assert(hash_run(bytes@, j as int) == 0);
    assert(hash_run(bytes@, j_start) == hashes);
    if j < n && bytes[j] == 0x22u8 {
        j = j + 1;
        assert(raw_string_next(bytes@, i as int) == raw_end(bytes@, j as int, hashes as nat));
        while j < n
            invariant
                j <= n,
                n == bytes@.len(),
                raw_string_next(bytes@, i as int) == raw_end(bytes@, j as int, hashes as nat),
            decreases n - j,
        {
            if bytes[j] == 0x22u8 {
                let mut k = j + 1;
                let mut h: usize = 0;
                while h < hashes && k < n && bytes[k] == 0x23u8
                    invariant
                        j < k <= n,
                        n == bytes@.len(),
                        h <= hashes,
                        k == j + 1 + h,
                        hashes_at(bytes@, j + 1, hashes as nat) == h + hashes_at(
                            bytes@,
                            k as int,
                            (hashes - h) as nat,
                        ),
                    decreases hashes - h,
                {
                    h = h + 1;
                    k = k + 1;
                }
                if h == hashes {
                    assert(hashes_at(bytes@, k as int, 0) == 0);
                    assert(raw_end(bytes@, j as int, hashes as nat) == k);
                    return k;
                }
            }
            j = j + 1;
        }
        j
    } else {
        i + 1
    }
}

/// Computes the maximum delimiter nesting depth, ignoring strings and comments.
pub fn max_delimiter_depth(src: &str) -> (r: usize)
    ensures
        r == max_depth_spec(src.spec_bytes()),
{
    let bytes = src.as_bytes();
    let n = bytes.len();
    let mut i: usize = 0;
    let mut depth: usize = 0;
    let mut max_depth: usize = 0;
    while i < n
        invariant
            i <= n,
            n == bytes@.len(),
            depth <= max_depth,
            max_depth <= i,
            depth_scan(bytes@, 0, 0, 0) == depth_scan(bytes@, i as int, depth as nat, max_depth as nat),
        decreases n - i,
    {
        let c = bytes[i];
        proof {
            lemma_token_progress(bytes@, i as int);
        }
        let next: usize;
        if c == 0x2fu8 && n - i >= 2 && bytes[i + 1] == 0x2fu8 {
            next = skip_line(bytes, i + 2);
        } else if c == 0x2fu8 && n - i >= 2 && bytes[i + 1] == 0x2au8 {
            next = skip_block(bytes, i + 2);
        } else if c == 0x22u8 {
            next = skip_string(bytes, i + 1);
        } else if c == 0x27u8 {
            next = skip_char_literal(bytes, i + 1);
        } else if c == 0x72u8 || c == 0x62u8 {
            next = skip_raw(bytes, i);
        } else {
            if c == 0x28u8 || c == 0x5bu8 || c == 0x7bu8 {
                depth = depth + 1;
                if depth > max_depth {
                    max_depth = depth;
                }
            } else if c == 0x29u8 || c == 0x5du8 || c == 0x7du8 {
                if depth > 0 {
                    depth = depth - 1;
                }
            }
            next = i + 1;
        }
        i = next;
    }
    max_depth
}

// ---------------------------------------------------------------------------
// Expression span: how much syntax can stack up along one nesting path.
// ---------------------------------------------------------------------------
/// Whether a byte is whitespace.
pub open spec fn is_space(c: u8) -> bool {
    c == 0x20u8 || c == 0x09u8 || c == 0x0au8 || c == 0x0du8
}

/// Whether a comment starts at `i`.
pub open spec fn comment_at(b: Seq<u8>, i: int) -> bool {
    b[i] == 0x2fu8 && i + 1 < b.len() && (b[i + 1] == 0x2fu8 || b[i + 1] == 0x2au8)
}

/// Whether a byte can be part of an identifier or a number (any byte of a
/// multi-byte character counts).
pub open spec fn ident_byte(c: u8) -> bool {
    (0x61u8 <= c && c <= 0x7au8) || (0x41u8 <= c && c <= 0x5au8) || (0x30u8 <= c && c <= 0x39u8) || c == 0x5fu8
        || c >= 0x80u8
}

/// Whether the word `else` starts at `i`.
pub open spec fn else_at(b: Seq<u8>, i: int) -> bool {
    &&& i + 4 <= b.len()
    &&& b[i] == 0x65u8 && b[i + 1] == 0x6cu8 && b[i + 2] == 0x73u8 && b[i + 3] == 0x65u8
    &&& (i + 4 == b.len() || !ident_byte(b[i + 4]))
}

/// Whether the word `as` starts at `i`.
pub open spec fn as_at(b: Seq<u8>, i: int) -> bool {
    &&& i + 2 <= b.len()
    &&& b[i] == 0x61u8 && b[i + 1] == 0x73u8
    &&& (i + 2 == b.len() || !ident_byte(b[i + 2]))
}

/// Whether the token at `i`, right after a `}`, continues the expression the
/// block ended (`else`, `as`, `.`, `?`, an operator) rather than starting a
/// new item or statement (a word, a literal, an attribute).
pub open spec fn continues_expr(b: Seq<u8>, i: int) -> bool {
    let c = b[i];
    if ident_byte(c) || c == 0x23u8 || c == 0x22u8 || c == 0x27u8 {
        else_at(b, i) || as_at(b, i)
    } else {
        true
    }
}

/// The state of a span scan: for each open delimiter, the accumulated span and
/// the run before it; the span accumulated by the enclosing delimiters; the
/// run of tokens since the last statement or list separator; and, right after
/// a `}`, the run before its `{`, which the next token resumes if it
/// continues the expression.
pub struct SpanState {
    pub stack: Seq<(nat, nat)>,
    pub acc: nat,
    pub run: nat,
    pub pending: Option<nat>,
}

/// The span state after the token at `i`. Whitespace and comments count for
/// nothing; any other token (a word, a number or a literal counts once, each
/// punctuation character once) extends the run; `;` and
/// `,` end it; an opener carries the run into the enclosing span; a closer
/// restores the state before its opener (after a `}`, only if the next token
/// continues the expression).
pub open spec fn span_step(b: Seq<u8>, i: int, s: SpanState) -> SpanState {
    let c = b[i];
    if is_space(c) || comment_at(b, i) || (ident_byte(c) && i > 0 && ident_byte(b[i - 1])) {
        s
    } else {
        let run = match s.pending {
            Some(r) => if continues_expr(b, i) {
                r
            } else {
                s.run
            },
            None => s.run,
        };
        if is_open(c) {
            SpanState { stack: s.stack.push((s.acc, run + 1)), acc: s.acc + run + 1, run: 0, pending: None }
        } else if is_close(c) {
            if s.stack.len() == 0 {
                SpanState { stack: s.stack, acc: s.acc, run: 0, pending: None }
            } else if c == 0x7du8 {
                SpanState { stack: s.stack.drop_last(), acc: s.stack.last().0, run: 0, pending: Some(s.stack.last().1) }
            } else {
                SpanState { stack: s.stack.drop_last(), acc: s.stack.last().0, run: s.stack.last().1, pending: None }
            }
        } else if c == 0x3bu8 || c == 0x2cu8 {
            SpanState { stack: s.stack, acc: s.acc, run: 0, pending: None }
        } else {
            SpanState { stack: s.stack, acc: s.acc, run: run + 1, pending: None }
        }
    }
}

/// The largest span reached scanning from `i` in state `s` with best `max`.
pub open spec fn span_scan(b: Seq<u8>, i: int, s: SpanState, max: nat) -> nat
    decreases b.len() - i,
{
    let n = b.len() as int;
    if i < 0 || i >= n {
        max
    } else {
        let nx = clamp_to(token_end(b, i), n);
        let t = span_step(b, i, s);
        let m = if t.acc + t.run > max {
            t.acc + t.run
        } else {
            max
        };
        if nx <= i {
            m
        } else {
            span_scan(b, nx, t, m)
        }
    }
}

/// The expression span of a byte string: the most tokens that lie, along one
/// path of nested delimiters, in unfinished statements and list items. It
/// bounds how deeply the syntax of a statement can nest.
pub open spec fn max_span_spec(b: Seq<u8>) -> nat {
    span_scan(b, 0, SpanState { stack: Seq::empty(), acc: 0, run: 0, pending: None }, 0)
}

/// Computes the expression span of a source text.
pub fn max_expression_span(src: &str) -> (r: usize)
    ensures
        r == max_span_spec(src.spec_bytes()),
{
    let bytes = src.as_bytes();
    let n = bytes.len();
    let mut i: usize = 0;
    let mut stack: Vec<(usize, usize)> = Vec::new();
    let mut acc: usize = 0;
    let mut run: usize = 0;
    let mut pending: Option<usize> = None;
    let mut best: usize = 0;
    assert(stack@.map_values(|e: (usize, usize)| (e.0 as nat, e.1 as nat)) =~= Seq::<(nat, nat)>::empty());
    while i < n
        invariant
            i <= n,
            n == bytes@.len(),
            acc + run <= i,
            best <= i,
            pending matches Some(r) ==> acc + r <= i,
            forall|k: int| 0 <= k < stack@.len() ==> (#[trigger] stack@[k]).0 + stack@[k].1 <= i,
            max_span_spec(bytes@) == span_scan(
                bytes@,
                i as int,
                SpanState {
                    stack: stack@.map_values(|e: (usize, usize)| (e.0 as nat, e.1 as nat)),
                    acc: acc as nat,
                    run: run as nat,
                    pending: match pending {
                        Some(r) => Some(r as nat),
                        None => None,
                    },
                },
                best as nat,
            ),
        decreases n - i,
    {
        let c = bytes[i];
        proof {
            lemma_token_progress(bytes@, i as int);
        }
        let ghost st = SpanState {
            stack: stack@.map_values(|e: (usize, usize)| (e.0 as nat, e.1 as nat)),
            acc: acc as nat,
            run: run as nat,
            pending: match pending {
                Some(r) => Some(r as nat),
                None => None,
            },
        };
        let comment = c == 0x2fu8 && n - i >= 2 && (bytes[i + 1] == 0x2fu8 || bytes[i + 1] == 0x2au8);
        let next: usize;
        if c == 0x2fu8 && n - i >= 2 && bytes[i + 1] == 0x2fu8 {
            next = skip_line(bytes, i + 2);
        } else if c == 0x2fu8 && n - i >= 2 && bytes[i + 1] == 0x2au8 {
            next = skip_block(bytes, i + 2);
        } else if c == 0x22u8 {
            next = skip_string(bytes, i + 1);
        } else if c == 0x27u8 {
            next = skip_char_literal(bytes, i + 1);
        } else if c == 0x72u8 || c == 0x62u8 {
            next = skip_raw(bytes, i);
        } else {
            next = i + 1;
        }
        let in_word = i > 0 && ident_byte_exec(c) && ident_byte_exec(bytes[i - 1]);
        if c == 0x20u8 || c == 0x09u8 || c == 0x0au8 || c == 0x0du8 || comment || in_word {
        } else {
            let base = match pending {
                Some(r) => if continues_expr_exec(bytes, i) {
                    r
                } else {
                    run
                },
                None => run,
            };
            pending = None;
            if c == 0x28u8 || c == 0x5bu8 || c == 0x7bu8 {
                stack.push((acc, base + 1));
                acc = acc + base + 1;
                run = 0;
            } else if c == 0x29u8 || c == 0x5du8 || c == 0x7du8 {
                if stack.len() == 0 {
                    run = 0;
                } else {
                    let top = stack.pop().unwrap();
                    acc = top.0;
                    if c == 0x7du8 {
                        run = 0;
                        pending = Some(top.1);
                    } else {
                        run = top.1;
                    }
                }
            } else if c == 0x3bu8 || c == 0x2cu8 {
                run = 0;
            } else {
                run = base + 1;
            }
        }
        proof {
            let t = span_step(bytes@, i as int, st);
            assert(stack@.map_values(|e: (usize, usize)| (e.0 as nat, e.1 as nat)) =~= t.stack);
        }
        if acc + run > best {
            best = acc + run;
        }
        i = next;
    }
    best
}

fn ident_byte_exec(c: u8) -> (r: bool)
    ensures
        r == ident_byte(c),
{
    (0x61u8 <= c && c <= 0x7au8) || (0x41u8 <= c && c <= 0x5au8) || (0x30u8 <= c && c <= 0x39u8) || c == 0x5fu8
        || c >= 0x80u8
}

fn continues_expr_exec(bytes: &[u8], i: usize) -> (r: bool)
    requires
        i < bytes@.len(),
    ensures
        r == continues_expr(bytes@, i as int),
{
    let n = bytes.len();
    let c = bytes[i];
    if ident_byte_exec(c) || c == 0x23u8 || c == 0x22u8 || c == 0x27u8 {
        let is_else = n - i >= 4 && bytes[i] == 0x65u8 && bytes[i + 1] == 0x6cu8 && bytes[i + 2] == 0x73u8 && bytes[i
            + 3] == 0x65u8 && (n - i == 4 || !ident_byte_exec(bytes[i + 4]));
        let is_as = n - i >= 2 && bytes[i] == 0x61u8 && bytes[i + 1] == 0x73u8 && (n - i == 2 || !ident_byte_exec(
            bytes[i + 2],
        ));
        is_else || is_as
    } else {
        true
    }
}

} // verus!
