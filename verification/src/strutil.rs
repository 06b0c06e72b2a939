//! Verified character-sequence scanning: ASCII case folding, substring
//! search, token delimiting and quote trimming. These are the string
//! primitives behind SQL text assembly and error-message classification.

use vstd::prelude::*;
use vstd::string::StrSliceExecFns;
use vstd::string::StringExecFns;

verus! {

/// ASCII lower-casing of one character; every other character is unchanged.
pub open spec fn lower_char(c: char) -> char {
    if 'A' <= c && c <= 'Z' {
        (((c as u8) + 32) as u8) as char
    } else {
        c
    }
}

/// Executable ASCII lower-casing, matching `lower_char`.
pub fn ascii_lower_char(c: char) -> (r: char)
    ensures
        r == lower_char(c),
{
    if 'A' <= c && c <= 'Z' {
        (((c as u8) + 32) as u8) as char
    } else {
        c
    }
}

/// The needle `n` occurs verbatim in `h` starting at index `i`.
pub open spec fn occurs_at(h: Seq<char>, n: Seq<char>, i: int) -> bool {
    &&& 0 <= i
    &&& i + n.len() <= h.len()
    &&& forall|j: int| 0 <= j < n.len() ==> #[trigger] n[j] == h[i + j]
}

/// The lower-case needle `n` occurs in `h` at index `i`, comparing the
/// haystack characters ASCII-case-insensitively.
pub open spec fn occurs_at_ci(h: Seq<char>, n: Seq<char>, i: int) -> bool {
    &&& 0 <= i
    &&& i + n.len() <= h.len()
    &&& forall|j: int| 0 <= j < n.len() ==> #[trigger] n[j] == lower_char(h[i + j])
}

/// `h` contains `n` somewhere, ASCII-case-insensitively.
pub open spec fn contains_ci(h: Seq<char>, n: Seq<char>) -> bool {
    exists|i: int| occurs_at_ci(h, n, i)
}

/// Index of the first verbatim occurrence of `n` in `h`, if any.
pub open spec fn first_occurrence(h: Seq<char>, n: Seq<char>, i: int) -> Option<int>
    decreases h.len() - i,
{
    if i < 0 || i + n.len() > h.len() {
        None
    } else if occurs_at(h, n, i) {
        Some(i)
    } else {
        first_occurrence(h, n, i + 1)
    }
}

proof fn lemma_first_occurrence_of_match(h: Seq<char>, n: Seq<char>, from: int, i: int)
    requires
        0 <= from <= i,
        occurs_at(h, n, i),
        forall|k: int| from <= k < i ==> !occurs_at(h, n, k),
    ensures
        first_occurrence(h, n, from) == Some(i),
    decreases i - from,
{
    if from < i {
        lemma_first_occurrence_of_match(h, n, from + 1, i);
    }
}

proof fn lemma_first_occurrence_none(h: Seq<char>, n: Seq<char>, from: int)
    requires
        0 <= from,
        forall|k: int| from <= k ==> !occurs_at(h, n, k),
    ensures
        first_occurrence(h, n, from) is None,
    decreases h.len() - from,
{
    if from + n.len() <= h.len() {
        lemma_first_occurrence_none(h, n, from + 1);
    }
}

/// A found first occurrence really is an occurrence at or after `from`.
pub proof fn lemma_first_occurrence_some(h: Seq<char>, n: Seq<char>, from: int, i: int)
    requires
        0 <= from,
        first_occurrence(h, n, from) == Some(i),
    ensures
        occurs_at(h, n, i),
        from <= i,
    decreases h.len() - from,
{
    if from + n.len() <= h.len() && !occurs_at(h, n, from) {
        lemma_first_occurrence_some(h, n, from + 1, i);
    }
}

/// Does `n` occur verbatim at index `i` of `h`?
fn occurs_at_exec(h: &str, n: &str, i: usize, hl: usize, nl: usize) -> (b: bool)
    requires
        hl == h@.len(),
        nl == n@.len(),
        i + nl <= hl,
    ensures
        b == occurs_at(h@, n@, i as int),
{
    let mut j: usize = 0;
    while j < nl
        invariant
            hl == h@.len(),
            nl == n@.len(),
            i + nl <= hl,
            0 <= j <= nl,
            forall|t: int| 0 <= t < j ==> #[trigger] n@[t] == h@[i + t],
        decreases nl - j,
    {
        if n.get_char(j) != h.get_char(i + j) {
            return false;
        }
        j = j + 1;
    }
    true
}

/// Does the lower-case needle `n` occur at index `i` of `h`, comparing
/// case-insensitively?
fn occurs_at_ci_exec(h: &str, n: &str, i: usize, hl: usize, nl: usize) -> (b: bool)
    requires
        hl == h@.len(),
        nl == n@.len(),
        i + nl <= hl,
    ensures
        b == occurs_at_ci(h@, n@, i as int),
{
    let mut j: usize = 0;
    while j < nl
        invariant
            hl == h@.len(),
            nl == n@.len(),
            i + nl <= hl,
            0 <= j <= nl,
            forall|t: int| 0 <= t < j ==> #[trigger] n@[t] == lower_char(h@[i + t]),
        decreases nl - j,
    {
        if n.get_char(j) != ascii_lower_char(h.get_char(i + j)) {
            return false;
        }
        j = j + 1;
    }
    true
}

/// First verbatim occurrence of `n` in `h`, scanning from the start.
pub fn find_str(h: &str, n: &str) -> (r: Option<usize>)
    ensures
        match r {
            Some(i) => first_occurrence(h@, n@, 0) == Some(i as int),
            None => first_occurrence(h@, n@, 0) is None,
        },
{
    let hl = h.unicode_len();
    let nl = n.unicode_len();
    if nl > hl {
        proof {
            lemma_first_occurrence_none(h@, n@, 0);
        }
        return None;
    }
    let mut i: usize = 0;
    while i <= hl - nl
        invariant
            hl == h@.len(),
            nl == n@.len(),
            nl <= hl,
            0 <= i <= hl - nl + 1,
            forall|k: int| 0 <= k < i ==> !occurs_at(h@, n@, k),
        decreases hl - i,
    {
        if occurs_at_exec(h, n, i, hl, nl) {
            proof {
                lemma_first_occurrence_of_match(h@, n@, 0, i as int);
            }
            return Some(i);
        }
        i = i + 1;
    }
    proof {
        assert(forall|k: int| k >= i ==> !occurs_at(h@, n@, k));
        lemma_first_occurrence_none(h@, n@, 0);
    }
    None
}

/// Whether `h` contains the (already lower-case) needle `n`, comparing
/// ASCII-case-insensitively.
pub fn contains_ci_str(h: &str, n: &str) -> (b: bool)
    ensures
        b == contains_ci(h@, n@),
{
    let hl = h.unicode_len();
    let nl = n.unicode_len();
    if nl > hl {
        return false;
    }
    let mut i: usize = 0;
    while i <= hl - nl
        invariant
            hl == h@.len(),
            nl == n@.len(),
            nl <= hl,
            0 <= i <= hl - nl + 1,
            forall|k: int| 0 <= k < i ==> !occurs_at_ci(h@, n@, k),
        decreases hl - i,
    {
        if occurs_at_ci_exec(h, n, i, hl, nl) {
            assert(occurs_at_ci(h@, n@, i as int));
            return true;
        }
        i = i + 1;
    }
    assert(forall|k: int| #[trigger] occurs_at_ci(h@, n@, k) ==> 0 <= k && k + n@.len() <= h@.len());
    false
}

/// Character-for-character string equality.
pub fn str_eq(a: &str, b: &str) -> (r: bool)
    ensures
        r == (a@ == b@),
{
    let al = a.unicode_len();
    let bl = b.unicode_len();
    if al != bl {
        return false;
    }
    let mut i: usize = 0;
    while i < al
        invariant
            al == a@.len(),
            bl == b@.len(),
            al == bl,
            0 <= i <= al,
            forall|t: int| 0 <= t < i ==> a@[t] == b@[t],
        decreases al - i,
    {
        if a.get_char(i) != b.get_char(i) {
            return false;
        }
        i = i + 1;
    }
    proof {
        assert(a@ =~= b@);
    }
    true
}

/// The Unicode white-space characters, as the standard library's
/// white-space test recognizes them.
pub open spec fn is_space(c: char) -> bool {
    ||| c == '\u{9}'
    ||| c == '\u{A}'
    ||| c == '\u{B}'
    ||| c == '\u{C}'
    ||| c == '\u{D}'
    ||| c == ' '
    ||| c == '\u{85}'
    ||| c == '\u{A0}'
    ||| c == '\u{1680}'
    ||| ('\u{2000}' <= c && c <= '\u{200A}')
    ||| c == '\u{2028}'
    ||| c == '\u{2029}'
    ||| c == '\u{202F}'
    ||| c == '\u{205F}'
    ||| c == '\u{3000}'
}

/// A character that ends a name token inside an error message: white
/// space, a double quote, or a period.
pub open spec fn is_token_end(c: char) -> bool {
    is_space(c) || c == '"' || c == '.'
}

fn is_space_exec(c: char) -> (b: bool)
    ensures
        b == is_space(c),
{
    c == '\u{9}' || c == '\u{A}' || c == '\u{B}' || c == '\u{C}' || c == '\u{D}' || c == ' '
        || c == '\u{85}' || c == '\u{A0}' || c == '\u{1680}' || ('\u{2000}' <= c && c
        <= '\u{200A}') || c == '\u{2028}' || c == '\u{2029}' || c == '\u{202F}' || c == '\u{205F}'
        || c == '\u{3000}'
}

fn is_token_end_exec(c: char) -> (b: bool)
    ensures
        b == is_token_end(c),
{
    is_space_exec(c) || c == '"' || c == '.'
}

/// Index of the first token-ending character of `h` at or after `i`.
pub open spec fn first_token_end(h: Seq<char>, i: int) -> Option<int>
    decreases h.len() - i,
{
    if i < 0 || i >= h.len() {
        None
    } else if is_token_end(h[i]) {
        Some(i)
    } else {
        first_token_end(h, i + 1)
    }
}

proof fn lemma_first_token_end_of_match(h: Seq<char>, from: int, i: int)
    requires
        0 <= from <= i < h.len(),
        is_token_end(h[i]),
        forall|k: int| from <= k < i ==> !is_token_end(#[trigger] h[k]),
    ensures
        first_token_end(h, from) == Some(i),
    decreases i - from,
{
    if from < i {
        lemma_first_token_end_of_match(h, from + 1, i);
    }
}

proof fn lemma_first_token_end_none(h: Seq<char>, from: int)
    requires
        0 <= from,
        forall|k: int| from <= k < h.len() ==> !is_token_end(#[trigger] h[k]),
    ensures
        first_token_end(h, from) is None,
    decreases h.len() - from,
{
    if from < h.len() {
        lemma_first_token_end_none(h, from + 1);
    }
}

/// A found first token end really ends a token at or after `from`.
pub proof fn lemma_first_token_end_some(h: Seq<char>, from: int, i: int)
    requires
        0 <= from,
        first_token_end(h, from) == Some(i),
    ensures
        from <= i < h.len(),
        is_token_end(h[i]),
    decreases h.len() - from,
{
    if from < h.len() && !is_token_end(h[from]) {
        lemma_first_token_end_some(h, from + 1, i);
    }
}

/// Scan `h` from index `from` for the first token-ending character.
pub fn find_token_end(h: &str, from: usize) -> (r: Option<usize>)
    requires
        from <= h@.len(),
    ensures
        match r {
            Some(i) => first_token_end(h@, from as int) == Some(i as int),
            None => first_token_end(h@, from as int) is None,
        },
{
    let hl = h.unicode_len();
    let mut i: usize = from;
    while i < hl
        invariant
            hl == h@.len(),
            from <= i <= hl,
            forall|k: int| from <= k < i ==> !is_token_end(#[trigger] h@[k]),
        decreases hl - i,
    {
        if is_token_end_exec(h.get_char(i)) {
            proof {
                lemma_first_token_end_of_match(h@, from as int, i as int);
            }
            return Some(i);
        }
        i = i + 1;
    }
    proof {
        lemma_first_token_end_none(h@, from as int);
    }
    None
}

/// The sequence with every leading and trailing double quote removed, the
/// way the standard library trims a matching pattern from both ends.
pub open spec fn trim_quotes(s: Seq<char>) -> Seq<char>
    decreases s.len(),
{
    if s.len() == 0 {
        s
    } else if s[0] == '"' {
        trim_quotes(s.subrange(1, s.len() as int))
    } else if s[s.len() - 1] == '"' {
        trim_quotes(s.subrange(0, s.len() - 1))
    } else {
        s
    }
}

/// The characters of `h` between `a` and `b`, with surrounding double
/// quotes stripped, as an owned string.
pub fn trimmed_token(h: &str, a: usize, b: usize) -> (t: String)
    requires
        a <= b <= h@.len(),
    ensures
        t@ == trim_quotes(h@.subrange(a as int, b as int)),
{
    let mut start: usize = a;
    let end0: usize = b;
    while start < end0 && h.get_char(start) == '"'
        invariant
            a <= start <= end0 <= h@.len(),
            end0 == b,
            trim_quotes(h@.subrange(a as int, b as int)) == trim_quotes(
                h@.subrange(start as int, end0 as int),
            ),
        decreases end0 - start,
    {
        proof {
            assert(h@.subrange(start as int, end0 as int).subrange(
                1,
                h@.subrange(start as int, end0 as int).len() as int,
            ) =~= h@.subrange(start as int + 1, end0 as int));
        }
        start = start + 1;
    }
    let mut end: usize = end0;
    while end > start && h.get_char(end - 1) == '"'
        invariant
            a <= start <= end <= end0 <= h@.len(),
            start < end0 ==> h@[start as int] != '"',
            trim_quotes(h@.subrange(a as int, b as int)) == trim_quotes(
                h@.subrange(start as int, end as int),
            ),
        decreases end,
    {
        proof {
            assert(h@.subrange(start as int, end as int).subrange(
                0,
                h@.subrange(start as int, end as int).len() - 1,
            ) =~= h@.subrange(start as int, end as int - 1));
        }
        end = end - 1;
    }
    let piece = h.substring_char(start, end);
    String::from_str(piece)
}

/// The decimal digit character for `d`.
pub open spec fn digit_char(d: int) -> char {
    if d == 0 {
        '0'
    } else if d == 1 {
        '1'
    } else if d == 2 {
        '2'
    } else if d == 3 {
        '3'
    } else if d == 4 {
        '4'
    } else if d == 5 {
        '5'
    } else if d == 6 {
        '6'
    } else if d == 7 {
        '7'
    } else if d == 8 {
        '8'
    } else {
        '9'
    }
}

/// The decimal rendering of a non-negative number, most significant digit
/// first.
pub open spec fn dec_digits(n: nat) -> Seq<char>
    decreases n,
{
    if n < 10 {
        seq![digit_char(n as int)]
    } else {
        dec_digits(n / 10) + seq![digit_char((n % 10) as int)]
    }
}

/// The decimal rendering of a signed number: a minus sign, where negative,
/// then the digits of the magnitude.
pub open spec fn dec_int(n: int) -> Seq<char> {
    if n < 0 {
        seq!['-'] + dec_digits((-n) as nat)
    } else {
        dec_digits(n as nat)
    }
}

fn push_digit(s: &mut String, d: u64)
    requires
        d < 10,
    ensures
        final(s)@ == old(s)@ + seq![digit_char(d as int)],
{
    if d == 0 {
        proof {
            reveal_strlit("0");
        }
        s.append("0");
    } else if d == 1 {
        proof {
            reveal_strlit("1");
        }
        s.append("1");
    } else if d == 2 {
        proof {
            reveal_strlit("2");
        }
        s.append("2");
    } else if d == 3 {
        proof {
            reveal_strlit("3");
        }
        s.append("3");
    } else if d == 4 {
        proof {
            reveal_strlit("4");
        }
        s.append("4");
    } else if d == 5 {
        proof {
            reveal_strlit("5");
        }
        s.append("5");
    } else if d == 6 {
        proof {
            reveal_strlit("6");
        }
        s.append("6");
    } else if d == 7 {
        proof {
            reveal_strlit("7");
        }
        s.append("7");
    } else if d == 8 {
        proof {
            reveal_strlit("8");
        }
        s.append("8");
    } else {
        proof {
            reveal_strlit("9");
        }
        s.append("9");
    }
    proof {
        assert(final(s)@ =~= old(s)@ + seq![digit_char(d as int)]);
    }
}

/// Append the decimal rendering of `n` to `s`.
pub fn push_dec_u64(s: &mut String, n: u64)
    ensures
        final(s)@ == old(s)@ + dec_digits(n as nat),
    decreases n,
{
    if n < 10 {
        push_digit(s, n);
    } else {
        push_dec_u64(s, n / 10);
        push_digit(s, n % 10);
        proof {
            assert(final(s)@ =~= old(s)@ + dec_digits(n as nat));
        }
    }
}

/// Append the decimal rendering of the signed `n` to `s`.
pub fn push_dec_i64(s: &mut String, n: i64)
    ensures
        final(s)@ == old(s)@ + dec_int(n as int),
{
    if n < 0 {
        proof {
            reveal_strlit("-");
        }
        s.append("-");
        let m: u64 = (-(n as i128)) as u64;
        assert(m as int == -(n as int));
        push_dec_u64(s, m);
        proof {
            assert(final(s)@ =~= old(s)@ + dec_int(n as int));
        }
    } else {
        push_dec_u64(s, n as u64);
    }
}

} // verus!
