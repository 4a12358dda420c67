//! Character-sequence utilities shared by the whole engine: whitespace
//! trimming, line-terminator stripping, and decimal rendering of integers.
//!
//! Whitespace here means the six ASCII whitespace characters. Command output
//! handled by this engine is ASCII in practice, so the trimming behaviour is
//! defined over that set rather than over the full Unicode white-space
//! property.

use vstd::prelude::*;

verus! {

/// The six ASCII whitespace characters.
pub open spec fn is_space(c: char) -> bool {
    c == ' ' || c == '\t' || c == '\n' || c == '\r' || c == '\u{b}' || c == '\u{c}'
}

/// `is_space` as a first-class predicate, for the generic strippers below.
pub open spec fn space_pred() -> spec_fn(char) -> bool {
    |c: char| is_space(c)
}

/// Predicate holding exactly on the character `c`.
pub open spec fn eq_pred(c: char) -> spec_fn(char) -> bool {
    |x: char| x == c
}

/// `s` with its longest prefix of characters satisfying `p` removed.
pub open spec fn drop_leading(s: Seq<char>, p: spec_fn(char) -> bool) -> Seq<char>
    decreases s.len(),
{
    if s.len() > 0 && p(s[0]) {
        drop_leading(s.drop_first(), p)
    } else {
        s
    }
}

/// `s` with its longest suffix of characters satisfying `p` removed.
pub open spec fn drop_trailing(s: Seq<char>, p: spec_fn(char) -> bool) -> Seq<char>
    decreases s.len(),
{
    if s.len() > 0 && p(s.last()) {
        drop_trailing(s.drop_last(), p)
    } else {
        s
    }
}

/// `s` with leading and trailing ASCII whitespace removed.
pub open spec fn trimmed(s: Seq<char>) -> Seq<char> {
    drop_trailing(drop_leading(s, space_pred()), space_pred())
}

/// A scan that stops at the first index `k` whose character fails `p`
/// computes exactly `drop_leading`.
pub proof fn lemma_drop_leading_subrange(s: Seq<char>, p: spec_fn(char) -> bool, k: int)
    requires
        0 <= k <= s.len(),
        forall|i: int| 0 <= i < k ==> p(s[i]),
        k == s.len() || !p(s[k]),
    ensures
        drop_leading(s, p) =~= s.subrange(k, s.len() as int),
    decreases k,
{
    if k == 0 {
        assert(s.subrange(0, s.len() as int) =~= s);
    } else {
        let t = s.drop_first();
        assert(forall|i: int| 0 <= i < k - 1 ==> p(t[i]));
        lemma_drop_leading_subrange(t, p, k - 1);
        assert(t.subrange(k - 1, t.len() as int) =~= s.subrange(k, s.len() as int));
    }
}

/// A backwards scan that stops at the last index whose character fails `p`
/// computes exactly `drop_trailing`; `m` is the length of what remains.
pub proof fn lemma_drop_trailing_subrange(s: Seq<char>, p: spec_fn(char) -> bool, m: int)
    requires
        0 <= m <= s.len(),
        forall|i: int| m <= i < s.len() ==> p(s[i]),
        m == 0 || !p(s[m - 1]),
    ensures
        drop_trailing(s, p) =~= s.subrange(0, m),
    decreases s.len() - m,
{
    if m == s.len() {
        assert(s.subrange(0, m) =~= s);
    } else {
        let t = s.drop_last();
        assert(forall|i: int| m <= i < t.len() ==> p(t[i]));
        lemma_drop_trailing_subrange(t, p, m);
        assert(t.subrange(0, m) =~= s.subrange(0, m));
    }
}

/// Runtime test for `is_space`.
pub fn is_space_char(c: char) -> (r: bool)
    ensures
        r == is_space(c),
{
    c == ' ' || c == '\t' || c == '\n' || c == '\r' || c == '\u{b}' || c == '\u{c}'
}

/// Copy of `s` with leading and trailing ASCII whitespace removed.
pub fn trim_str(s: &str) -> (r: String)
    ensures
        r@ == trimmed(s@),
{
    let len = s.unicode_len();
    let mut start: usize = 0;
    while start < len && is_space_char(s.get_char(start))
        invariant
            len == s@.len(),
            0 <= start <= len,
            forall|i: int| 0 <= i < start ==> is_space(s@[i]),
        decreases len - start,
    {
        start = start + 1;
    }
    let mut end: usize = len;
    while end > start && is_space_char(s.get_char(end - 1))
        invariant
            len == s@.len(),
            start <= end <= len,
            forall|i: int| end <= i < len ==> is_space(s@[i]),
        decreases end,
    {
        end = end - 1;
    }
    proof {
        lemma_drop_leading_subrange(s@, space_pred(), start as int);
        let t = s@.subrange(start as int, len as int);
        lemma_drop_trailing_subrange(t, space_pred(), end - start);
        assert(t.subrange(0, end - start) =~= s@.subrange(start as int, end as int));
    }
    s.substring_char(start, end).to_owned()
}

/// A raw line with its terminator removed: every trailing `'\n'` is
/// stripped, then every trailing `'\r'`.
pub open spec fn line_core(l: Seq<char>) -> Seq<char> {
    drop_trailing(drop_trailing(l, eq_pred('\n')), eq_pred('\r'))
}

/// Copy of `line` with its line terminator removed.
pub fn strip_line_ending(line: &str) -> (r: String)
    ensures
        r@ == line_core(line@),
{
    let len = line.unicode_len();
    let mut end: usize = len;
    while end > 0 && line.get_char(end - 1) == '\n'
        invariant
            len == line@.len(),
            0 <= end <= len,
            forall|i: int| end <= i < len ==> line@[i] == '\n',
        decreases end,
    {
        end = end - 1;
    }
    let mut end2: usize = end;
    while end2 > 0 && line.get_char(end2 - 1) == '\r'
        invariant
            len == line@.len(),
            0 <= end2 <= end <= len,
            forall|i: int| end2 <= i < end ==> line@[i] == '\r',
        decreases end2,
    {
        end2 = end2 - 1;
    }
    proof {
        lemma_drop_trailing_subrange(line@, eq_pred('\n'), end as int);
        let t = line@.subrange(0, end as int);
        lemma_drop_trailing_subrange(t, eq_pred('\r'), end2 as int);
        assert(t.subrange(0, end2 as int) =~= line@.subrange(0, end2 as int));
    }
    line.substring_char(0, end2).to_owned()
}

/// Appends `text` to `buffer`, separated by a single `'\n'` when the buffer
/// already holds something.
pub fn append_line(buffer: &mut String, text: &str)
    ensures
        old(buffer)@.len() == 0 ==> final(buffer)@ == text@,
        old(buffer)@.len() > 0 ==> final(buffer)@ == old(buffer)@ + seq!['\n'] + text@,
{
    if !buffer.as_str().is_empty() {
        proof {
            reveal_strlit("\n");
            assert("\n"@ =~= seq!['\n']);
        }
        buffer.append("\n");
    }
    buffer.append(text);
}

/// Whether two string slices hold the same characters.
pub fn str_eq(a: &str, b: &str) -> (r: bool)
    ensures
        r == (a@ == b@),
{
    let la = a.unicode_len();
    let lb = b.unicode_len();
    if la != lb {
        return false;
    }
    let mut i: usize = 0;
    while i < la
        invariant
            la == a@.len(),
            la == b@.len(),
            0 <= i <= la,
            forall|j: int| 0 <= j < i ==> a@[j] == b@[j],
        decreases la - i,
    {
        if a.get_char(i) != b.get_char(i) {
            return false;
        }
        i = i + 1;
    }
    proof {
        assert(a@ =~= b@);
    }
    true
}

/// Whether `needle` occurs as a contiguous run inside `hay`.
pub open spec fn contains_sub(hay: Seq<char>, needle: Seq<char>) -> bool {
    exists|k: int|
        0 <= k <= hay.len() - needle.len() && #[trigger] hay.subrange(k, k + needle.len() as int)
            == needle
}

/// Whether the characters of `needle` stand at position `k` of `hay`.
pub open spec fn matches_at(hay: Seq<char>, needle: Seq<char>, k: int) -> bool {
    forall|j: int| 0 <= j < needle.len() ==> hay[k + j] == needle[j]
}

fn sub_matches_at(hay: &str, needle: &str, k: usize) -> (r: bool)
    requires
        k + needle@.len() <= hay@.len(),
        hay@.len() <= usize::MAX,
    ensures
        r == matches_at(hay@, needle@, k as int),
{
    let n = needle.unicode_len();
    let mut j: usize = 0;
    while j < n
        invariant
            n == needle@.len(),
            k + n <= hay@.len(),
            hay@.len() <= usize::MAX,
            0 <= j <= n,
            forall|t: int| 0 <= t < j ==> hay@[k + t] == needle@[t],
        decreases n - j,
    {
        if hay.get_char(k + j) != needle.get_char(j) {
            return false;
        }
        j = j + 1;
    }
    true
}

/// Whether `needle` occurs as a substring of `hay`.
pub fn str_contains(hay: &str, needle: &str) -> (r: bool)
    ensures
        r == contains_sub(hay@, needle@),
{
    let lh = hay.unicode_len();
    let ln = needle.unicode_len();
    if ln > lh {
        return false;
    }
    let mut k: usize = 0;
    while k <= lh - ln
        invariant
            lh == hay@.len(),
            ln == needle@.len(),
            ln <= lh,
            0 <= k <= lh - ln + 1,
            forall|t: int|
                0 <= t < k ==> #[trigger] hay@.subrange(t, t + needle@.len() as int) != needle@,
        decreases lh + 1 - k,
    {
        if sub_matches_at(hay, needle, k) {
            proof {
                assert(hay@.subrange(k as int, k + needle@.len() as int) =~= needle@);
            }
            return true;
        }
        proof {
            assert(hay@.subrange(k as int, k + needle@.len() as int) != needle@) by {
                if hay@.subrange(k as int, k + needle@.len() as int) == needle@ {
                    assert forall|j: int|
                        0 <= j < needle@.len() implies hay@[k + j] == needle@[j] by {
                        assert(hay@.subrange(k as int, k + needle@.len() as int)[j] == needle@[j]);
                    }
                }
            }
        }
        k = k + 1;
    }
    false
}

/// The decimal digit characters.
pub open spec fn digit_char(d: int) -> char {
    if d == 0 {
        '0'
    } else if d == 1 {
        '1'
    } else if d == 2 {
        '2'
    } else if d == 3 {
        '3'
    } else if d == 4 {
        '4'
    } else if d == 5 {
        '5'
    } else if d == 6 {
        '6'
    } else if d == 7 {
        '7'
    } else if d == 8 {
        '8'
    } else {
        '9'
    }
}

/// The usual decimal rendering of a natural number, without leading zeros.
pub open spec fn dec_str(n: nat) -> Seq<char>
    decreases n,
{
    if n < 10 {
        seq![digit_char(n as int)]
    } else {
        dec_str(n / 10) + seq![digit_char((n % 10) as int)]
    }
}

/// The decimal rendering of an integer, with a leading `'-'` when negative.
pub open spec fn dec_int_str(v: int) -> Seq<char> {
    if v >= 0 {
        dec_str(v as nat)
    } else {
        seq!['-'] + dec_str((-v) as nat)
    }
}

fn digit_str(d: u64) -> (r: &'static str)
    requires
        d < 10,
    ensures
        r@ == seq![digit_char(d as int)],
{
    proof {
        reveal_strlit("0");
        reveal_strlit("1");
        reveal_strlit("2");
        reveal_strlit("3");
        reveal_strlit("4");
        reveal_strlit("5");
        reveal_strlit("6");
        reveal_strlit("7");
        reveal_strlit("8");
        reveal_strlit("9");
        assert("0"@ =~= seq!['0']);
        assert("1"@ =~= seq!['1']);
        assert("2"@ =~= seq!['2']);
        assert("3"@ =~= seq!['3']);
        assert("4"@ =~= seq!['4']);
        assert("5"@ =~= seq!['5']);
        assert("6"@ =~= seq!['6']);
        assert("7"@ =~= seq!['7']);
        assert("8"@ =~= seq!['8']);
        assert("9"@ =~= seq!['9']);
    }
    match d {
        0 => "0",
        1 => "1",
        2 => "2",
        3 => "3",
        4 => "4",
        5 => "5",
        6 => "6",
        7 => "7",
        8 => "8",
        _ => "9",
    }
}

/// Decimal rendering of a `u64`.
pub fn u64_to_string(n: u64) -> (r: String)
    ensures
        r@ == dec_str(n as nat),
    decreases n,
{
    if n < 10 {
        digit_str(n).to_owned()
    } else {
        let mut prefix = u64_to_string(n / 10);
        prefix.append(digit_str(n % 10));
        prefix
    }
}

/// Decimal rendering of an `i64`.
pub fn i64_to_string(v: i64) -> (r: String)
    ensures
        r@ == dec_int_str(v as int),
{
    if v >= 0 {
        u64_to_string(v as u64)
    } else {
        let mag: u64 = (-(v as i128)) as u64;
        proof {
            reveal_strlit("-");
            assert("-"@ =~= seq!['-']);
        }
        let mut s = String::from_str("-");
        let digits = u64_to_string(mag);
        s.append(digits.as_str());
        s
    }
}

/// Decimal rendering of an `i32` (process exit codes).
pub fn i32_to_string(v: i32) -> (r: String)
    ensures
        r@ == dec_int_str(v as int),
{
    i64_to_string(v as i64)
}

} // verus!
