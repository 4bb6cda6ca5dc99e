//! Character-level helpers shared by the parsers and formatters.
use vstd::prelude::*;

verus! {

/// The characters of `s`, in order.
pub fn chars_of(s: &str) -> (chars: Vec<char>)
    ensures
        chars@ == s@,
{
    let mut chars: Vec<char> = Vec::new();
    for c in it: s.chars()
        invariant
            chars@ == it.seq().take(it.index() as int),
    {
        chars.push(c);
    }
    chars
}

/// `String::push`: appends one character to the string.
#[verifier::external_body]
pub(crate) fn push_char(text: &mut String, c: char)
    ensures
        final(text)@ == old(text)@.push(c),
{
    text.push(c);
}

/// Whether `chars[at..]` starts with `pattern`.
pub fn matches_at(chars: &Vec<char>, at: usize, pattern: &[char]) -> (found: bool)
    requires
        at <= chars@.len(),
    ensures
        found == (at + pattern@.len() <= chars@.len() && chars@.subrange(
            at as int,
            at + pattern@.len(),
        ) == pattern@),
{
    if pattern.len() > chars.len() - at {
        return false;
    }
    let mut i: usize = 0;
    while i < pattern.len()
        invariant
            at + pattern@.len() <= chars.len(),
            0 <= i <= pattern@.len(),
            forall|j: int| 0 <= j < i ==> chars@[at + j] == pattern@[j],
        decreases pattern@.len() - i,
    {
        if chars[at + i] != pattern[i] {
            proof {
                assert(chars@.subrange(at as int, at + pattern@.len())[i as int] != pattern@[i as int]);
            }
            return false;
        }
        i = i + 1;
    }
    proof {
        assert(chars@.subrange(at as int, at + pattern@.len()) =~= pattern@);
    }
    true
}

/// Whether `pattern` occurs anywhere in `chars`.
pub fn contains_chars(chars: &Vec<char>, pattern: &[char]) -> (found: bool)
    ensures
        found == exists|i: int|
            0 <= i && i + pattern@.len() <= chars@.len() && #[trigger] chars@.subrange(
                i,
                i + pattern@.len(),
            ) == pattern@,
{
    let mut at: usize = 0;
    while at < chars.len()
        invariant
            0 <= at <= chars@.len(),
            forall|i: int|
                0 <= i < at && i + pattern@.len() <= chars@.len() ==> #[trigger] chars@.subrange(
                    i,
                    i + pattern@.len(),
                ) != pattern@,
        decreases chars@.len() - at,
    {
        if matches_at(chars, at, pattern) {
            return true;
        }
        at = at + 1;
    }
    matches_at(chars, at, pattern)
}


/// The first index at or after `from` where `pattern` occurs in `chars`, if any.
pub open spec fn first_occurrence(chars: Seq<char>, pattern: Seq<char>, from: int) -> Option<int>
    decreases chars.len() + 1 - from,
{
    if from < 0 || from + pattern.len() > chars.len() {
        None
    } else if chars.subrange(from, from + pattern.len()) == pattern {
        Some(from)
    } else {
        first_occurrence(chars, pattern, from + 1)
    }
}

/// Where `pattern` occurs at `from`, the first occurrence from there is `from` itself.
proof fn lemma_first_occurrence_found(chars: Seq<char>, pattern: Seq<char>, from: int)
    requires
        0 <= from,
        from + pattern.len() <= chars.len(),
        chars.subrange(from, from + pattern.len()) == pattern,
    ensures
        first_occurrence(chars, pattern, from) == Some(from),
{
}

/// Finds the first occurrence of `pattern` in `chars` at or after `from`.
pub fn find_from(chars: &Vec<char>, pattern: &[char], from: usize) -> (found: Option<usize>)
    ensures
        found matches Some(i) ==> first_occurrence(chars@, pattern@, from as int) == Some(i as int),
        found matches Some(i) ==> from <= i && i + pattern@.len() <= chars@.len()
            && chars@.subrange(i as int, i + pattern@.len()) == pattern@,
        found is None ==> first_occurrence(chars@, pattern@, from as int) is None,
{
    let mut at = from;
    while at <= chars.len() && pattern.len() <= chars.len() - at
        invariant
            from <= at,
            first_occurrence(chars@, pattern@, from as int) == first_occurrence(
                chars@,
                pattern@,
                at as int,
            ),
        decreases chars@.len() + 1 - at,
    {
        if matches_at(chars, at, pattern) {
            proof {
                lemma_first_occurrence_found(chars@, pattern@, at as int);
            }
            return Some(at);
        }
        proof {
            if pattern@.len() == 0 {
                assert(chars@.subrange(at as int, at as int) =~= pattern@);
            }
        }
        at = at + 1;
    }
    None
}

/// `c` with ASCII `A`-`Z` mapped to `a`-`z`, every other character unchanged.
pub open spec fn ascii_lower(c: char) -> char {
    if 'A' <= c && c <= 'Z' {
        ((c as u32) + 32) as char
    } else {
        c
    }
}

/// Whether two character sequences are equal ignoring ASCII case.
pub open spec fn eq_ignore_ascii_case(a: Seq<char>, b: Seq<char>) -> bool {
    a.len() == b.len() && forall|i: int| 0 <= i < a.len() ==> ascii_lower(#[trigger] a[i]) == ascii_lower(
        b[i],
    )
}

/// Lowercases one ASCII letter.
pub fn to_ascii_lower(c: char) -> (lower: char)
    ensures
        lower == ascii_lower(c),
{
    if 'A' <= c && c <= 'Z' {
        let code = (c as u32) + 32;
        proof {
            assert(0x61 <= code <= 0x7a);
        }
        char_from_ascii(code)
    } else {
        c
    }
}

/// The character for an ASCII code.
fn char_from_ascii(code: u32) -> (c: char)
    requires
        code < 128,
    ensures
        c == code as char,
{
    let byte = code as u8;
    let c = byte as char;
    proof {
        assert(c == code as char);
    }
    c
}

/// Whether `a` and `b` are equal ignoring ASCII case.
pub fn chars_eq_ignore_ascii_case(a: &Vec<char>, b: &[char]) -> (same: bool)
    ensures
        same == eq_ignore_ascii_case(a@, b@),
{
    if a.len() != b.len() {
        return false;
    }
    let mut i: usize = 0;
    while i < a.len()
        invariant
            a@.len() == b@.len(),
            0 <= i <= a@.len(),
            forall|j: int| 0 <= j < i ==> ascii_lower(#[trigger] a@[j]) == ascii_lower(b@[j]),
        decreases a@.len() - i,
    {
        if to_ascii_lower(a[i]) != to_ascii_lower(b[i]) {
            return false;
        }
        i = i + 1;
    }
    true
}

/// Whether `a` and `b` hold the same characters.
pub fn chars_eq(a: &Vec<char>, b: &[char]) -> (same: bool)
    ensures
        same == (a@ == b@),
{
    if a.len() != b.len() {
        return false;
    }
    let mut i: usize = 0;
    while i < a.len()
        invariant
            a@.len() == b@.len(),
            0 <= i <= a@.len(),
            forall|j: int| 0 <= j < i ==> a@[j] == b@[j],
        decreases a@.len() - i,
    {
        if a[i] != b[i] {
            return false;
        }
        i = i + 1;
    }
    proof {
        assert(a@ =~= b@);
    }
    true
}

/// Unicode `White_Space`, the set `char::is_whitespace` and `str::trim` go by.
pub open spec fn is_white_space(c: char) -> bool {
    let code = c as u32;
    ||| 0x09 <= code <= 0x0d
    ||| code == 0x20
    ||| code == 0x85
    ||| code == 0xa0
    ||| code == 0x1680
    ||| 0x2000 <= code <= 0x200a
    ||| code == 0x2028
    ||| code == 0x2029
    ||| code == 0x202f
    ||| code == 0x205f
    ||| code == 0x3000
}

/// Whether `c` is Unicode white space.
pub fn is_white_space_char(c: char) -> (white: bool)
    ensures
        white == is_white_space(c),
{
    let code = c as u32;
    (0x09 <= code && code <= 0x0d) || code == 0x20 || code == 0x85 || code == 0xa0 || code
        == 0x1680 || (0x2000 <= code && code <= 0x200a) || code == 0x2028 || code == 0x2029 || code
        == 0x202f || code == 0x205f || code == 0x3000
}

/// The bounds `[lo, hi)` of `s` with leading and trailing white space removed.
pub open spec fn trimmed_bounds(s: Seq<char>, lo: int, hi: int) -> bool {
    &&& 0 <= lo <= hi <= s.len()
    &&& forall|i: int| 0 <= i < lo ==> is_white_space(#[trigger] s[i])
    &&& forall|i: int| hi <= i < s.len() ==> is_white_space(#[trigger] s[i])
    &&& lo < hi ==> !is_white_space(s[lo]) && !is_white_space(s[hi - 1])
    &&& lo == hi ==> forall|i: int| 0 <= i < s.len() ==> is_white_space(#[trigger] s[i])
}

/// Where the text of `chars[from..to]` starts and ends once white space is trimmed off both
/// ends.
pub fn trim_bounds(chars: &Vec<char>, from: usize, to: usize) -> (bounds: (usize, usize))
    requires
        from <= to <= chars@.len(),
    ensures
        from <= bounds.0 <= bounds.1 <= to,
        trimmed_bounds(
            chars@.subrange(from as int, to as int),
            bounds.0 - from,
            bounds.1 - from,
        ),
{
    let ghost s = chars@.subrange(from as int, to as int);
    let mut lo = from;
    while lo < to && is_white_space_char(chars[lo])
        invariant
            from <= lo <= to <= chars@.len(),
            s == chars@.subrange(from as int, to as int),
            forall|i: int| 0 <= i < lo - from ==> is_white_space(#[trigger] s[i]),
        decreases to - lo,
    {
        lo = lo + 1;
    }
    let mut hi = to;
    while hi > lo && is_white_space_char(chars[hi - 1])
        invariant
            from <= lo <= hi <= to <= chars@.len(),
            s == chars@.subrange(from as int, to as int),
            forall|i: int| 0 <= i < lo - from ==> is_white_space(#[trigger] s[i]),
            forall|i: int| hi - from <= i < s.len() ==> is_white_space(#[trigger] s[i]),
            lo < to ==> !is_white_space(s[lo - from]),
        decreases hi - lo,
    {
        hi = hi - 1;
    }
    proof {
        if lo == hi {
            assert forall|i: int| 0 <= i < s.len() implies is_white_space(#[trigger] s[i]) by {
                if i >= lo - from {
                    assert(i >= hi - from);
                }
            }
        }
    }
    (lo, hi)
}

/// Copies `text` into a fixed C string buffer: as much of it as fits before the final slot,
/// then a terminating zero. Bytes after the terminator are left as they were.
pub fn write_fixed_cstr<const N: usize>(dst: &mut [u8; N], text: &[u8])
    requires
        N >= 1,
    ensures
        ({
            let len = if text@.len() < N - 1 {
                text@.len() as int
            } else {
                N - 1
            };
            &&& final(dst)@.len() == N
            &&& final(dst)@.subrange(0, len) == text@.subrange(0, len)
            &&& final(dst)@[len] == 0u8
            &&& final(dst)@.subrange(len + 1, N as int) == old(dst)@.subrange(len + 1, N as int)
        }),
{
    let len = if text.len() < N - 1 {
        text.len()
    } else {
        N - 1
    };
    let mut i: usize = 0;
    while i < len
        invariant
            len <= text@.len(),
            len < N,
            dst@.len() == N,
            0 <= i <= len,
            forall|j: int| 0 <= j < i ==> dst@[j] == text@[j],
            forall|j: int| i <= j < N ==> dst@[j] == old(dst)@[j],
        decreases len - i,
    {
        dst[i] = text[i];
        i = i + 1;
    }
    dst[len] = 0u8;
    proof {
        assert(dst@.subrange(0, len as int) =~= text@.subrange(0, len as int));
        assert(dst@.subrange(len + 1, N as int) =~= old(dst)@.subrange(len + 1, N as int));
    }
}

} // verus!
