//! Text helpers: substring search, bracket extraction, prefixes, and the two
//! calls that the library makes for case folding and JSON string quoting.
use vstd::prelude::*;
use vstd::string::*;

verus! {

// ── Specifications ─────────────────────────────────────────────────

/// `needle` occurs in `hay` starting at position `i`.
pub open spec fn occurs_at(hay: Seq<char>, needle: Seq<char>, i: int) -> bool {
    0 <= i && i + needle.len() <= hay.len() && hay.subrange(i, i + needle.len()) == needle
}

/// `needle` occurs somewhere in `hay`.
pub open spec fn contains_seq(hay: Seq<char>, needle: Seq<char>) -> bool {
    exists|i: int| #[trigger] occurs_at(hay, needle, i)
}

/// Index of the first `c` in `s`, or `s.len()` when there is none.
pub open spec fn first_index(s: Seq<char>, c: char) -> int
    decreases s.len(),
{
    if s.len() == 0 {
        0
    } else if s[0] == c {
        0
    } else {
        1 + first_index(s.drop_first(), c)
    }
}

/// Index of the last `c` in `s`, or `-1` when there is none.
pub open spec fn last_index(s: Seq<char>, c: char) -> int
    decreases s.len(),
{
    if s.len() == 0 {
        -1
    } else if s.last() == c {
        s.len() - 1
    } else {
        last_index(s.drop_last(), c)
    }
}

/// Where a left-to-right reading of JSON text stands: the brace depth,
/// whether it is inside a string literal, and whether the previous character
/// was a backslash inside that literal.
pub ghost struct ScanState {
    pub depth: int,
    pub in_string: bool,
    pub escaped: bool,
}

/// The reading after one more character. Braces count only outside string
/// literals; a `"` opens or closes a literal unless a backslash escapes it.
pub open spec fn scan_step(st: ScanState, c: char) -> ScanState {
    if st.in_string {
        if st.escaped {
            ScanState { escaped: false, ..st }
        } else if c == '\\' {
            ScanState { escaped: true, ..st }
        } else if c == '"' {
            ScanState { in_string: false, ..st }
        } else {
            st
        }
    } else if c == '"' {
        ScanState { in_string: true, escaped: false, ..st }
    } else if c == '{' {
        ScanState { depth: st.depth + 1, ..st }
    } else if c == '}' {
        ScanState { depth: st.depth - 1, ..st }
    } else {
        st
    }
}

/// The reading of `s[start..end]`, starting outside any literal at depth 0.
pub open spec fn scan(s: Seq<char>, start: int, end: int) -> ScanState
    decreases end - start,
{
    if end <= start {
        ScanState { depth: 0, in_string: false, escaped: false }
    } else {
        scan_step(scan(s, start, end - 1), s[end - 1])
    }
}

/// The block opened at `start` closes at `e`: counting braces outside string
/// literals from `start`, the depth comes back to zero right after `e`, and
/// not before.
pub open spec fn closes_at(s: Seq<char>, start: int, e: int) -> bool {
    &&& start <= e < s.len()
    &&& scan(s, start, e + 1).depth == 0
    &&& forall|k: int| start < k <= e ==> #[trigger] scan(s, start, k).depth > 0
}

/// Some `{` of `s` comes before some `}`.
pub open spec fn has_brace_pair(s: Seq<char>) -> bool {
    exists|i: int, j: int| 0 <= i < j < s.len() && s[i] == '{' && s[j] == '}'
}

/// The JSON object in a reply: from the first `{` to the `}` that balances
/// it (braces inside string literals not counted); when that block never
/// closes, from the first `{` to the last `}`; nothing when no `{` comes
/// before a `}`.
pub open spec fn json_object_span(s: Seq<char>) -> Option<Seq<char>> {
    let start = first_index(s, '{');
    let last = last_index(s, '}');
    if start < s.len() && exists|e: int| closes_at(s, start, e) {
        let e = choose|e: int| closes_at(s, start, e);
        Some(s.subrange(start, e + 1))
    } else if last > start {
        Some(s.subrange(start, last + 1))
    } else {
        None
    }
}

/// The first `n` characters of `s` (all of them when `s` is shorter).
pub open spec fn prefix_chars(s: Seq<char>, n: nat) -> Seq<char> {
    if n <= s.len() {
        s.take(n as int)
    } else {
        s
    }
}

/// The lowercase form of a text, as `str::to_lowercase` computes it.
pub uninterp spec fn lowercase(s: Seq<char>) -> Seq<char>;

/// The lowercase hexadecimal digit for `n` (`0 <= n < 16`).
pub open spec fn hex_digit(n: int) -> char {
    seq!['0', '1', '2', '3', '4', '5', '6', '7', '8', '9', 'a', 'b', 'c', 'd', 'e', 'f'][n]
}

/// How one character is written inside a JSON string literal: quote and
/// backslash escaped, the control characters with a short escape where JSON
/// has one and as `\u00XX` otherwise, every other character as itself.
pub open spec fn json_escape(c: char) -> Seq<char> {
    if c == '"' {
        seq!['\\', '"']
    } else if c == '\\' {
        seq!['\\', '\\']
    } else if c == '\u{8}' {
        seq!['\\', 'b']
    } else if c == '\t' {
        seq!['\\', 't']
    } else if c == '\n' {
        seq!['\\', 'n']
    } else if c == '\u{c}' {
        seq!['\\', 'f']
    } else if c == '\r' {
        seq!['\\', 'r']
    } else if (c as int) < 0x20 {
        seq!['\\', 'u', '0', '0', hex_digit((c as int) / 16), hex_digit((c as int) % 16)]
    } else {
        seq![c]
    }
}

/// The characters of `s`, each written as inside a JSON string literal.
pub open spec fn json_escaped(s: Seq<char>) -> Seq<char>
    decreases s.len(),
{
    if s.len() == 0 {
        Seq::empty()
    } else {
        json_escaped(s.drop_last()) + json_escape(s.last())
    }
}

/// The JSON string literal for a text: its escaped characters between quotes.
pub open spec fn json_string_literal(s: Seq<char>) -> Seq<char> {
    seq!['"'] + json_escaped(s) + seq!['"']
}

// ── Lemmas ─────────────────────────────────────────────────────────

/// `first_index` is the position of the first occurrence, or the length.
pub proof fn lemma_first_index(s: Seq<char>, c: char)
    ensures
        0 <= first_index(s, c) <= s.len(),
        first_index(s, c) < s.len() ==> s[first_index(s, c)] == c,
        forall|j: int| 0 <= j < first_index(s, c) ==> s[j] != c,
    decreases s.len(),
{
    if s.len() > 0 && s[0] != c {
        lemma_first_index(s.drop_first(), c);
        assert forall|j: int| 0 <= j < first_index(s, c) implies s[j] != c by {
            if j > 0 {
                assert(s[j] == s.drop_first()[j - 1]);
            }
        }
    }
}

/// `last_index` is the position of the last occurrence, or `-1`.
pub proof fn lemma_last_index(s: Seq<char>, c: char)
    ensures
        -1 <= last_index(s, c) < s.len(),
        last_index(s, c) >= 0 ==> s[last_index(s, c)] == c,
        forall|j: int| last_index(s, c) < j < s.len() ==> s[j] != c,
    decreases s.len(),
{
    if s.len() > 0 && s.last() != c {
        lemma_last_index(s.drop_last(), c);
        assert forall|j: int| last_index(s, c) < j < s.len() implies s[j] != c by {
            if j < s.len() - 1 {
                assert(s[j] == s.drop_last()[j]);
            }
        }
    }
}

/// A block closes at one place only.
pub proof fn lemma_closes_at_unique(s: Seq<char>, start: int, e1: int, e2: int)
    requires
        closes_at(s, start, e1),
        closes_at(s, start, e2),
    ensures
        e1 == e2,
{
    if e1 < e2 {
        assert(scan(s, start, e1 + 1).depth > 0);
    } else if e2 < e1 {
        assert(scan(s, start, e2 + 1).depth > 0);
    }
}

/// A `{` comes before a `}` exactly when the last `}` follows the first `{`.
pub proof fn lemma_brace_pair(s: Seq<char>)
    ensures
        has_brace_pair(s) <==> last_index(s, '}') > first_index(s, '{'),
{
    lemma_first_index(s, '{');
    lemma_last_index(s, '}');
    let f = first_index(s, '{');
    let l = last_index(s, '}');
    if has_brace_pair(s) {
        let (i, j) = choose|i: int, j: int| 0 <= i < j < s.len() && s[i] == '{' && s[j] == '}';
        assert(f <= i);
        assert(j <= l);
    }
    if l > f {
        assert(0 <= f < l < s.len() && s[f] == '{' && s[l] == '}');
    }
}

// ── Executable helpers ─────────────────────────────────────────────

/// The characters of a text, one by one.
pub fn chars_of(s: &str) -> (r: Vec<char>)
    ensures
        r@ == s@,
{
    let mut r: Vec<char> = Vec::new();
    for c in it: s.chars()
        invariant
            it.seq() == s@,
            r@ == it.seq().take(it.index() as int),
    {
        r.push(c);
        assert(r@ =~= it.seq().take(it.index() + 1));
    }
    assert(r@ =~= s@);
    r
}

/// Whether `needle` occurs in `hay`.
pub fn contains_text(hay: &str, needle: &str) -> (r: bool)
    ensures
        r == contains_seq(hay@, needle@),
{
    let h = chars_of(hay);
    let n = chars_of(needle);
    let hl = h.len();
    let nl = n.len();
    if nl > hl {
        assert forall|i: int| !(#[trigger] occurs_at(hay@, needle@, i)) by {}
        return false;
    }
    if nl == 0 {
        assert(hay@.subrange(0, 0) =~= needle@);
        assert(occurs_at(hay@, needle@, 0));
        return true;
    }
    let last = hl - nl;
    let mut i: usize = 0;
    while i <= last
        invariant
            h@ == hay@,
            n@ == needle@,
            hl == h@.len(),
            nl == n@.len(),
            1 <= nl <= hl,
            last == hl - nl,
            i <= last + 1,
            forall|k: int| 0 <= k < i ==> !(#[trigger] occurs_at(hay@, needle@, k)),
        decreases last + 1 - i,
    {
        let mut j: usize = 0;
        let mut matched = true;
        while j < nl
            invariant
                h@ == hay@,
                n@ == needle@,
                hl == h@.len(),
                nl == n@.len(),
                i + nl <= hl,
                j <= nl,
                matched ==> forall|k: int| 0 <= k < j ==> h@[i + k] == n@[k],
                !matched ==> !occurs_at(hay@, needle@, i as int),
            decreases nl - j,
        {
            if h[i + j] != n[j] {
                if matched {
                    assert(hay@.subrange(i as int, i + nl)[j as int] != needle@[j as int]);
                }
                matched = false;
            }
            j = j + 1;
        }
        if matched {
            assert(hay@.subrange(i as int, i + nl) =~= needle@);
            assert(occurs_at(hay@, needle@, i as int));
            return true;
        }
        i = i + 1;
    }
    assert forall|k: int| !(#[trigger] occurs_at(hay@, needle@, k)) by {}
    false
}

/// The JSON object in a reply that may wrap it in prose or code fences:
/// the first `{...}` block, braces inside string literals not counted; when
/// that block never closes, everything from the first `{` to the last `}`.
pub fn extract_json_object(s: &str) -> (r: Option<&str>)
    ensures
        match r {
            Some(t) => json_object_span(s@) == Some(t@) && t@.len() >= 2 && t@[0] == '{' && t@.last()
                == '}',
            None => json_object_span(s@) is None,
        },
        r is Some <==> has_brace_pair(s@),
{
    let v = chars_of(s);
    let n = v.len();
    proof {
        lemma_first_index(s@, '{');
        lemma_last_index(s@, '}');
        lemma_brace_pair(s@);
    }
    let mut start: usize = 0;
    while start < n && v[start] != '{'
        invariant
            v@ == s@,
            n == v@.len(),
            start <= n,
            forall|j: int| 0 <= j < start ==> v@[j] != '{',
        decreases n - start,
    {
        start = start + 1;
    }
    assert(start as int == first_index(s@, '{'));
    if start == n {
        return None;
    }
    let ghost st = start as int;
    let mut depth: usize = 0;
    let mut in_string = false;
    let mut escaped = false;
    let mut j: usize = start;
    while j < n
        invariant
            v@ == s@,
            n == v@.len(),
            start < n,
            st == start,
            st == first_index(s@, '{'),
            v@[st] == '{',
            start <= j <= n,
            scan(s@, st, j as int) == (ScanState { depth: depth as int, in_string, escaped }),
            depth <= j - start,
            forall|k: int| st < k <= j ==> #[trigger] scan(s@, st, k).depth > 0,
        decreases n - j,
    {
        let c = v[j];
        assert(scan(s@, st, j + 1) == scan_step(scan(s@, st, j as int), s@[j as int]));
        if in_string {
            if escaped {
                escaped = false;
            } else if c == '\\' {
                escaped = true;
            } else if c == '"' {
                in_string = false;
            }
        } else if c == '"' {
            in_string = true;
            escaped = false;
        } else if c == '{' {
            depth = depth + 1;
        } else if c == '}' {
            if depth == 0 {
                // Only at `start`, which holds `{`.
                assert(false);
            }
            depth = depth - 1;
            if depth == 0 {
                proof {
                    assert(closes_at(s@, st, j as int));
                    let e = choose|e: int| closes_at(s@, st, e);
                    lemma_closes_at_unique(s@, st, e, j as int);
                    assert(json_object_span(s@) == Some(s@.subrange(st, j + 1)));
                    assert(j > start);
                    assert(0 <= st < j < s@.len() && s@[st] == '{' && s@[j as int] == '}');
                }
                let t = s.substring_char(start, j + 1);
                assert(t@ == s@.subrange(st, j + 1));
                assert(t@[0] == s@[st]);
                assert(t@.last() == s@[j as int]);
                return Some(t);
            }
        }
        j = j + 1;
    }
    proof {
        assert forall|e: int| !closes_at(s@, st, e) by {
            if closes_at(s@, st, e) {
                assert(scan(s@, st, e + 1).depth > 0);
            }
        }
    }
    let mut end: usize = n;
    while end > 0 && v[end - 1] != '}'
        invariant
            v@ == s@,
            n == v@.len(),
            end <= n,
            forall|k: int| end <= k < n ==> v@[k] != '}',
        decreases end,
    {
        end = end - 1;
    }
    assert(end as int - 1 == last_index(s@, '}'));
    if end >= 1 && end - 1 > start {
        let t = s.substring_char(start, end);
        assert(t@ == s@.subrange(st, end as int));
        assert(t@[0] == s@[st]);
        assert(t@.last() == s@[end - 1]);
        Some(t)
    } else {
        None
    }
}

/// The first `n` characters of `s`.
pub fn take_chars(s: &str, n: usize) -> (r: String)
    ensures
        r@ == prefix_chars(s@, n as nat),
{
    let len = s.unicode_len();
    let k = if n < len { n } else { len };
    let t = s.substring_char(0, k);
    let r = t.to_owned();
    assert(r@ =~= prefix_chars(s@, n as nat));
    r
}

/// `a` followed by `b`.
pub fn concat2(a: &str, b: &str) -> (r: String)
    ensures
        r@ == a@ + b@,
{
    let mut r = a.to_owned();
    r.append(b);
    r
}

/// `a`, `b` and `c` one after the other.
pub fn concat3(a: &str, b: &str, c: &str) -> (r: String)
    ensures
        r@ == a@ + b@ + c@,
{
    let mut r = a.to_owned();
    r.append(b);
    r.append(c);
    r
}

/// Calls `str::to_lowercase`: the lowercase form of `s`, by the Unicode
/// `Lowercase` mapping. The contract names that mapping and says no more of it.
#[verifier::external_body]
pub fn to_lowercase(s: &str) -> (r: String)
    ensures
        r@ == lowercase(s@),
{
    s.to_lowercase()
}

/// Calls `serde_json::to_string` on a text: its JSON string literal, quotes
/// included, with `"`, `\` and the control characters escaped as
/// `json_escape` states. Serialising a `str` into memory cannot fail in
/// `serde_json` (the only errors come from the writer, and a `Vec` never fails
/// to write), so the error arm is never taken.
#[verifier::external_body]
pub fn json_quote(s: &str) -> (r: String)
    ensures
        r@ == json_string_literal(s@),
{
    match serde_json::to_string(s) {
        Ok(t) => t,
        Err(_) => String::new(),
    }
}

} // verus!
