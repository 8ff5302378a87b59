//! Character-level text rules: trimming, splitting, prefixes and numbers.
use vstd::prelude::*;
use vstd::string::*;

verus! {

/// Unicode `White_Space`.
pub open spec fn whitespace(c: char) -> bool {
    ||| '\u{9}' <= c <= '\u{d}'
    ||| c == ' '
    ||| c == '\u{85}'
    ||| c == '\u{a0}'
    ||| c == '\u{1680}'
    ||| '\u{2000}' <= c <= '\u{200a}'
    ||| c == '\u{2028}'
    ||| c == '\u{2029}'
    ||| c == '\u{202f}'
    ||| c == '\u{205f}'
    ||| c == '\u{3000}'
}

pub open spec fn trimmed_start(s: Seq<char>) -> Seq<char>
    decreases s.len(),
{
    if s.len() > 0 && whitespace(s[0]) {
        trimmed_start(s.skip(1))
    } else {
        s
    }
}

pub open spec fn trimmed_end(s: Seq<char>) -> Seq<char>
    decreases s.len(),
{
    if s.len() > 0 && whitespace(s.last()) {
        trimmed_end(s.drop_last())
    } else {
        s
    }
}

/// The text without white space at either end.
pub open spec fn trimmed(s: Seq<char>) -> Seq<char> {
    trimmed_end(trimmed_start(s))
}

/// Nothing but white space.
pub open spec fn blank(s: Seq<char>) -> bool {
    trimmed(s).len() == 0
}

/// First position at or after `from` whose character satisfies `p`, or the
/// length of the text.
pub open spec fn position_from(s: Seq<char>, p: spec_fn(char) -> bool, from: int) -> int
    decreases s.len() - from,
{
    if from >= s.len() {
        s.len() as int
    } else if p(s[from]) {
        from
    } else {
        position_from(s, p, from + 1)
    }
}

pub open spec fn position_of(s: Seq<char>, p: spec_fn(char) -> bool) -> int {
    position_from(s, p, 0)
}

/// Position of the first white space, or the length of the text.
pub open spec fn whitespace_position(s: Seq<char>) -> int {
    position_of(s, |c: char| whitespace(c))
}

/// Position of the first `mark`, or the length of the text.
pub open spec fn mark_position(s: Seq<char>, mark: char) -> int {
    position_of(s, is_mark(mark))
}

pub open spec fn is_mark(mark: char) -> spec_fn(char) -> bool {
    |c: char| c == mark
}

pub open spec fn ascii_lower(c: char) -> char {
    if 'A' <= c <= 'Z' {
        ((c as u32) + 32) as u32 as char
    } else {
        c
    }
}

pub open spec fn ascii_lowered(s: Seq<char>) -> Seq<char> {
    s.map_values(|c: char| ascii_lower(c))
}

pub open spec fn ascii_digit(c: char) -> bool {
    '0' <= c <= '9'
}

/// The number that a run of digits spells.
pub open spec fn decimal(s: Seq<char>) -> nat
    decreases s.len(),
{
    if s.len() == 0 {
        0
    } else {
        decimal(s.drop_last()) * 10 + (s.last() as u32 - '0' as u32) as nat
    }
}

/// The digits of a number: what follows an optional plus sign.
pub open spec fn unsigned_digits(s: Seq<char>) -> Seq<char> {
    if s.len() > 0 && s[0] == '+' {
        s.skip(1)
    } else {
        s
    }
}

/// What the text says as an unsigned 64-bit number: an optional plus sign,
/// then one or more digits and nothing else, within range.
pub open spec fn parsed_u64(s: Seq<char>) -> Option<u64> {
    let digits = unsigned_digits(s);
    if digits.len() > 0 && (forall|i: int| 0 <= i < digits.len() ==> ascii_digit(#[trigger] digits[i]))
        && decimal(digits) <= u64::MAX {
        Some(decimal(digits) as u64)
    } else {
        None
    }
}

/// Whether `part` occurs in `s`.
pub open spec fn contains_text(s: Seq<char>, part: Seq<char>) -> bool {
    exists|i: int| #[trigger] occurs_at(s, part, i)
}

pub open spec fn occurs_at(s: Seq<char>, part: Seq<char>, i: int) -> bool {
    0 <= i && i + part.len() <= s.len() && s.subrange(i, i + part.len()) == part
}

/// Order of two texts by their characters, as a byte-wise comparison of their
/// UTF-8 encodings gives it.
pub open spec fn text_before(a: Seq<char>, b: Seq<char>) -> bool
    decreases a.len(),
{
    if b.len() == 0 {
        false
    } else if a.len() == 0 {
        true
    } else if a[0] != b[0] {
        a[0] < b[0]
    } else {
        text_before(a.skip(1), b.skip(1))
    }
}

pub open spec fn opt_view(o: Option<String>) -> Option<Seq<char>> {
    match o {
        Some(s) => Some(s@),
        None => None,
    }
}

pub fn is_whitespace(c: char) -> (r: bool)
    ensures
        r == whitespace(c),
{
    ('\u{9}' <= c && c <= '\u{d}') || c == ' ' || c == '\u{85}' || c == '\u{a0}' || c == '\u{1680}'
        || ('\u{2000}' <= c && c <= '\u{200a}') || c == '\u{2028}' || c == '\u{2029}'
        || c == '\u{202f}' || c == '\u{205f}' || c == '\u{3000}'
}

/// The characters of a text.
pub fn chars_of(s: &str) -> (r: Vec<char>)
    ensures
        r@ == s@,
{
    let mut v: Vec<char> = Vec::new();
    for c in it: s.chars()
        invariant
            v@ == it.seq().take(it.index()),
            it.seq() == s@,
    {
        v.push(c);
    }
    v
}

pub fn same_text(a: &str, b: &str) -> (r: bool)
    ensures
        r == (a@ == b@),
{
    a.to_owned() == b.to_owned()
}

pub fn same_opt(a: &Option<String>, b: &Option<String>) -> (r: bool)
    ensures
        r == (opt_view(*a) == opt_view(*b)),
{
    match (a, b) {
        (Some(x), Some(y)) => same_text(x.as_str(), y.as_str()),
        (None, None) => true,
        _ => false,
    }
}

pub fn clone_opt(o: &Option<String>) -> (r: Option<String>)
    ensures
        r == *o,
{
    match o {
        Some(s) => Some(s.clone()),
        None => None,
    }
}

proof fn lemma_trimmed_start_skip(s: Seq<char>, k: int)
    requires
        0 <= k <= s.len(),
        forall|i: int| 0 <= i < k ==> whitespace(#[trigger] s[i]),
    ensures
        trimmed_start(s) == trimmed_start(s.skip(k)),
    decreases k,
{
    if k == 0 {
        assert(s.skip(0) =~= s);
    } else {
        assert(whitespace(s[0]));
        assert forall|i: int| 0 <= i < k - 1 implies whitespace(#[trigger] s.skip(1)[i]) by {
            assert(s.skip(1)[i] == s[i + 1]);
        }
        lemma_trimmed_start_skip(s.skip(1), k - 1);
        assert(s.skip(1).skip(k - 1) =~= s.skip(k));
    }
}

proof fn lemma_trimmed_end_take(s: Seq<char>, k: int)
    requires
        0 <= k <= s.len(),
        forall|i: int| k <= i < s.len() ==> whitespace(#[trigger] s[i]),
    ensures
        trimmed_end(s) == trimmed_end(s.take(k)),
    decreases s.len() - k,
{
    if k == s.len() {
        assert(s.take(k) =~= s);
    } else {
        assert(whitespace(s.last()));
        let t = s.drop_last();
        assert forall|i: int| k <= i < t.len() implies whitespace(#[trigger] t[i]) by {
            assert(t[i] == s[i]);
        }
        lemma_trimmed_end_take(t, k);
        assert(t.take(k) =~= s.take(k));
    }
}

/// `str::trim`.
pub fn trim<'a>(s: &'a str) -> (r: &'a str)
    ensures
        r@ == trimmed(s@),
{
    let v = chars_of(s);
    let n: usize = v.len();
    let mut i: usize = 0;
    while i < n && is_whitespace(v[i])
        invariant
            i <= n,
            n == v.len(),
            v@ == s@,
            forall|k: int| 0 <= k < i ==> whitespace(#[trigger] s@[k]),
        decreases n - i,
    {
        i = i + 1;
    }
    let mut j: usize = n;
    while j > i && is_whitespace(v[j - 1])
        invariant
            i <= j <= n,
            n == v.len(),
            v@ == s@,
            forall|k: int| j <= k < n ==> whitespace(#[trigger] s@[k]),
        decreases j,
    {
        j = j - 1;
    }
    proof {
        lemma_trimmed_start_skip(s@, i as int);
        let t = s@.skip(i as int);
        assert(t.len() > 0 ==> t[0] == s@[i as int]);
        assert(trimmed_start(s@) == t);
        assert forall|k: int| j - i <= k < t.len() implies whitespace(#[trigger] t[k]) by {
            assert(t[k] == s@[k + i]);
        }
        lemma_trimmed_end_take(t, j - i);
        let u = t.take(j - i);
        assert(u =~= s@.subrange(i as int, j as int));
        assert(u.len() > 0 ==> u.last() == s@[j - 1]);
        assert(trimmed_end(u) == u);
    }
    s.substring_char(i, j)
}

/// `str::trim_start`.
pub fn trim_start<'a>(s: &'a str) -> (r: &'a str)
    ensures
        r@ == trimmed_start(s@),
{
    let v = chars_of(s);
    let n: usize = v.len();
    let mut i: usize = 0;
    while i < n && is_whitespace(v[i])
        invariant
            i <= n,
            n == v.len(),
            v@ == s@,
            forall|k: int| 0 <= k < i ==> whitespace(#[trigger] s@[k]),
        decreases n - i,
    {
        i = i + 1;
    }
    proof {
        lemma_trimmed_start_skip(s@, i as int);
        let t = s@.skip(i as int);
        assert(t.len() > 0 ==> t[0] == s@[i as int]);
        assert(t =~= s@.subrange(i as int, n as int));
    }
    s.substring_char(i, n)
}

pub fn is_blank(s: &str) -> (r: bool)
    ensures
        r == blank(s@),
{
    trim(s).unicode_len() == 0
}

/// Whether the text starts with `prefix`.
pub fn starts_with(s: &str, prefix: &str) -> (r: bool)
    ensures
        r == prefix@.is_prefix_of(s@),
{
    let n: usize = s.unicode_len();
    let m: usize = prefix.unicode_len();
    if m > n {
        return false;
    }
    let head = s.substring_char(0, m);
    let r = same_text(head, prefix);
    assert(r == prefix@.is_prefix_of(s@)) by {
        assert(s@.subrange(0, m as int) == s@.subrange(0, prefix@.len() as int));
    }
    r
}

/// What follows `prefix`, if the text starts with it.
pub fn strip_prefix<'a>(s: &'a str, prefix: &str) -> (r: Option<&'a str>)
    ensures
        match r {
            Some(t) => prefix@.is_prefix_of(s@) && t@ == s@.skip(prefix@.len() as int),
            None => !prefix@.is_prefix_of(s@),
        },
{
    if starts_with(s, prefix) {
        let n: usize = s.unicode_len();
        let m: usize = prefix.unicode_len();
        let t = s.substring_char(m, n);
        assert(t@ =~= s@.skip(prefix@.len() as int));
        Some(t)
    } else {
        None
    }
}

/// The parts before and after the first white space.
pub fn split_at_whitespace<'a>(s: &'a str) -> (r: Option<(&'a str, &'a str)>)
    ensures
        match r {
            Some((head, tail)) => {
                let k = whitespace_position(s@);
                k < s@.len() && head@ == s@.take(k) && tail@ == s@.skip(k + 1)
            },
            None => whitespace_position(s@) == s@.len(),
        },
{
    let v = chars_of(s);
    let n: usize = v.len();
    let mut i: usize = 0;
    let ghost p = |c: char| whitespace(c);
    while i < n && !is_whitespace(v[i])
        invariant
            i <= n,
            n == v.len(),
            v@ == s@,
            p == (|c: char| whitespace(c)),
            position_of(s@, p) == position_from(s@, p, i as int),
        decreases n - i,
    {
        i = i + 1;
    }
    assert(whitespace_position(s@) == i);
    if i < n {
        let head = s.substring_char(0, i);
        let tail = s.substring_char(i + 1, n);
        assert(head@ =~= s@.take(i as int));
        assert(tail@ =~= s@.skip(i + 1));
        Some((head, tail))
    } else {
        None
    }
}

/// The parts before and after the first `mark`.
pub fn split_at_mark<'a>(s: &'a str, mark: char) -> (r: Option<(&'a str, &'a str)>)
    ensures
        match r {
            Some((head, tail)) => {
                let k = mark_position(s@, mark);
                k < s@.len() && head@ == s@.take(k) && tail@ == s@.skip(k + 1)
            },
            None => mark_position(s@, mark) == s@.len(),
        },
{
    let v = chars_of(s);
    let n: usize = v.len();
    let mut i: usize = 0;
    let ghost p = is_mark(mark);
    while i < n && v[i] != mark
        invariant
            i <= n,
            n == v.len(),
            v@ == s@,
            p == is_mark(mark),
            position_of(s@, p) == position_from(s@, p, i as int),
        decreases n - i,
    {
        i = i + 1;
    }
    assert(mark_position(s@, mark) == i);
    if i < n {
        let head = s.substring_char(0, i);
        let tail = s.substring_char(i + 1, n);
        assert(head@ =~= s@.take(i as int));
        assert(tail@ =~= s@.skip(i + 1));
        Some((head, tail))
    } else {
        None
    }
}

pub const LETTERS: &'static str = "abcdefghijklmnopqrstuvwxyz";

proof fn lemma_letter(c: char)
    requires
        'A' <= c <= 'Z',
    ensures
        LETTERS@.len() == 26,
        LETTERS@[c as u32 - 'A' as u32] == ascii_lower(c),
{
    reveal_strlit("abcdefghijklmnopqrstuvwxyz");
    assert(LETTERS@[0] == 'a');
    assert(LETTERS@[1] == 'b');
    assert(LETTERS@[2] == 'c');
    assert(LETTERS@[3] == 'd');
    assert(LETTERS@[4] == 'e');
    assert(LETTERS@[5] == 'f');
    assert(LETTERS@[6] == 'g');
    assert(LETTERS@[7] == 'h');
    assert(LETTERS@[8] == 'i');
    assert(LETTERS@[9] == 'j');
    assert(LETTERS@[10] == 'k');
    assert(LETTERS@[11] == 'l');
    assert(LETTERS@[12] == 'm');
    assert(LETTERS@[13] == 'n');
    assert(LETTERS@[14] == 'o');
    assert(LETTERS@[15] == 'p');
    assert(LETTERS@[16] == 'q');
    assert(LETTERS@[17] == 'r');
    assert(LETTERS@[18] == 's');
    assert(LETTERS@[19] == 't');
    assert(LETTERS@[20] == 'u');
    assert(LETTERS@[21] == 'v');
    assert(LETTERS@[22] == 'w');
    assert(LETTERS@[23] == 'x');
    assert(LETTERS@[24] == 'y');
    assert(LETTERS@[25] == 'z');
}

/// The text with its ASCII letters lowered.
pub fn to_ascii_lowercase(s: &str) -> (r: String)
    ensures
        r@ == ascii_lowered(s@),
{
    let v = chars_of(s);
    let n: usize = v.len();
    let mut out = String::new();
    let mut i: usize = 0;
    assert(out@ =~= ascii_lowered(s@).take(0));
    while i < n
        invariant
            i <= n,
            n == v.len(),
            v@ == s@,
            out@ == ascii_lowered(s@).take(i as int),
        decreases n - i,
    {
        let c = v[i];
        if 'A' <= c && c <= 'Z' {
            let k: usize = (c as u32 - 'A' as u32) as usize;
            proof {
                lemma_letter(c);
            }
            out.append(LETTERS.substring_char(k, k + 1));
        } else {
            out.append(s.substring_char(i, i + 1));
        }
        assert(out@ =~= ascii_lowered(s@).take(i + 1));
        i = i + 1;
    }
    assert(ascii_lowered(s@).take(n as int) =~= ascii_lowered(s@));
    out
}

pub const DIGITS: &'static str = "0123456789";

/// A count in decimal.
pub open spec fn decimal_text(n: nat) -> Seq<char>
    decreases n,
{
    if n < 10 {
        seq![DIGITS@[n as int]]
    } else {
        decimal_text(n / 10).push(DIGITS@[n as int % 10])
    }
}

pub fn write_u64(n: u64) -> (r: String)
    ensures
        r@ == decimal_text(n as nat),
    decreases n,
{
    proof {
        reveal_strlit("0123456789");
    }
    let d: usize = (n % 10) as usize;
    let digit = DIGITS.substring_char(d, d + 1);
    if n < 10 {
        let r = digit.to_owned();
        assert(r@ =~= decimal_text(n as nat));
        r
    } else {
        let mut r = write_u64(n / 10);
        let ghost head = r@;
        r.append(digit);
        assert(r@ =~= head.push(DIGITS@[d as int]));
        r
    }
}

/// Whether the text equals `lower` once its ASCII letters are lowered.
pub fn equals_lowered(s: &str, lower: &str) -> (r: bool)
    ensures
        r == (ascii_lowered(s@) == lower@),
{
    let lowered = to_ascii_lowercase(s);
    same_text(lowered.as_str(), lower)
}

proof fn lemma_decimal_grows(s: Seq<char>, k: int)
    requires
        0 <= k <= s.len(),
        forall|i: int| 0 <= i < s.len() ==> ascii_digit(#[trigger] s[i]),
    ensures
        decimal(s.take(k)) <= decimal(s),
    decreases s.len(),
{
    if k < s.len() {
        let t = s.drop_last();
        assert forall|i: int| 0 <= i < t.len() implies ascii_digit(#[trigger] t[i]) by {
            assert(t[i] == s[i]);
        }
        lemma_decimal_grows(t, k);
        assert(t.take(k) =~= s.take(k));
    } else {
        assert(s.take(k) =~= s);
    }
}

fn digit_value(c: char) -> (r: Option<u64>)
    ensures
        match r {
            Some(d) => ascii_digit(c) && d == c as u32 - '0' as u32,
            None => !ascii_digit(c),
        },
{
    match c {
        '0' => Some(0),
        '1' => Some(1),
        '2' => Some(2),
        '3' => Some(3),
        '4' => Some(4),
        '5' => Some(5),
        '6' => Some(6),
        '7' => Some(7),
        '8' => Some(8),
        '9' => Some(9),
        _ => None,
    }
}

/// Reads an unsigned 64-bit number.
pub fn parse_u64(s: &str) -> (r: Option<u64>)
    ensures
        r == parsed_u64(s@),
{
    let v = chars_of(s);
    let n: usize = v.len();
    let start: usize = if n > 0 && v[0] == '+' { 1 } else { 0 };
    let ghost digits = unsigned_digits(s@);
    assert(digits =~= s@.skip(start as int));
    if start == n {
        return None;
    }
    let mut value: u64 = 0;
    let mut i: usize = start;
    while i < n
        invariant
            start <= i <= n,
            n == v.len(),
            v@ == s@,
            digits == unsigned_digits(s@),
            digits == s@.skip(start as int),
            forall|k: int| 0 <= k < i - start ==> ascii_digit(#[trigger] digits[k]),
            value == decimal(digits.take(i - start)),
        decreases n - i,
    {
        let c = v[i];
        assert(digits[i - start] == c);
        match digit_value(c) {
            None => {
                return None;
            },
            Some(d) => {
                let ghost prefix = digits.take(i - start);
                let ghost longer = digits.take(i - start + 1);
                assert(longer.drop_last() =~= prefix);
                assert(longer.last() == c);
                assert(decimal(longer) == decimal(prefix) * 10 + d);
                if value > (u64::MAX - d) / 10 {
                    proof {
                        if forall|k: int| 0 <= k < digits.len() ==> ascii_digit(#[trigger] digits[k]) {
                            lemma_decimal_grows(digits, i - start + 1);
                        }
                    }
                    return None;
                }
                value = value * 10 + d;
                i = i + 1;
            },
        }
    }
    assert(digits.take(n - start) =~= digits);
    Some(value)
}

/// Whether `part` occurs in the text.
pub fn contains(s: &str, part: &str) -> (r: bool)
    ensures
        r == contains_text(s@, part@),
{
    let n: usize = s.unicode_len();
    let m: usize = part.unicode_len();
    if m > n {
        return false;
    }
    let mut i: usize = 0;
    while i <= n - m
        invariant
            i <= n - m + 1,
            m <= n,
            n == s@.len(),
            m == part@.len(),
            forall|k: int| 0 <= k < i ==> !(#[trigger] occurs_at(s@, part@, k)),
        decreases n - m + 1 - i,
    {
        let window = s.substring_char(i, i + m);
        if same_text(window, part) {
            assert(occurs_at(s@, part@, i as int));
            return true;
        }
        if i == n - m {
            assert forall|k: int| !(#[trigger] occurs_at(s@, part@, k)) by {}
            return false;
        }
        i = i + 1;
    }
    false
}

/// Whether one text sorts before another.
pub fn sorts_before(a: &str, b: &str) -> (r: bool)
    ensures
        r == text_before(a@, b@),
{
    let v = chars_of(a);
    let w = chars_of(b);
    let mut i: usize = 0;
    assert(a@.skip(0) =~= a@);
    assert(b@.skip(0) =~= b@);
    while i < v.len() && i < w.len()
        invariant
            i <= v.len(),
            i <= w.len(),
            v@ == a@,
            w@ == b@,
            text_before(a@, b@) == text_before(a@.skip(i as int), b@.skip(i as int)),
        decreases v.len() - i,
    {
        if v[i] != w[i] {
            return v[i] < w[i];
        }
        assert(a@.skip(i as int).skip(1) =~= a@.skip(i + 1));
        assert(b@.skip(i as int).skip(1) =~= b@.skip(i + 1));
        i = i + 1;
    }
    i < w.len()
}

/// Texts are in a strict total order.
pub proof fn law_text_order(a: Seq<char>, b: Seq<char>, c: Seq<char>)
    ensures
        !text_before(a, a),
        text_before(a, b) || text_before(b, a) || a == b,
        text_before(a, b) && text_before(b, c) ==> text_before(a, c),
    decreases a.len(),
{
    if a.len() > 0 {
        let (a1, b1, c1) = (a.skip(1), b.skip(1), c.skip(1));
        law_text_order(a1, b1, c1);
        if b.len() > 0 && a[0] == b[0] && a1 == b1 {
            assert(a =~= seq![a[0]] + a1);
            assert(b =~= seq![b[0]] + b1);
        }
    } else if b.len() == 0 {
        assert(a =~= b);
    }
}

/// The two texts one after the other.
pub fn join(a: &str, b: &str) -> (r: String)
    ensures
        r@ == a@ + b@,
{
    let mut s = a.to_owned();
    s.append(b);
    s
}

/// Trimming leaves a text without white space at its ends, so that trimming
/// twice is trimming once.
pub proof fn law_trim_idempotent(s: Seq<char>)
    ensures
        trimmed(s).len() > 0 ==> !whitespace(trimmed(s)[0]) && !whitespace(trimmed(s).last()),
        trimmed(trimmed(s)) == trimmed(s),
{
    lemma_trimmed_start_first(s);
    lemma_trimmed_end_last(trimmed_start(s));
}

proof fn lemma_trimmed_start_first(s: Seq<char>)
    ensures
        trimmed_start(s).len() > 0 ==> !whitespace(trimmed_start(s)[0]),
    decreases s.len(),
{
    if s.len() > 0 && whitespace(s[0]) {
        lemma_trimmed_start_first(s.skip(1));
    }
}

proof fn lemma_trimmed_end_last(s: Seq<char>)
    ensures
        trimmed_end(s).len() > 0 ==> !whitespace(trimmed_end(s).last()) && s.len() > 0
            && trimmed_end(s)[0] == s[0],
    decreases s.len(),
{
    if s.len() > 0 && whitespace(s.last()) {
        lemma_trimmed_end_last(s.drop_last());
    }
}

/// A number in decimal is digits, at least one of them.
pub proof fn lemma_written_digits(n: nat)
    ensures
        decimal_text(n).len() > 0,
        forall|i: int| 0 <= i < decimal_text(n).len() ==> ascii_digit(#[trigger] decimal_text(n)[i]),
        decimal(decimal_text(n)) == n,
    decreases n,
{
    reveal_strlit("0123456789");
    let d = n as int % 10;
    assert(DIGITS@.len() == 10);
    assert(DIGITS@[0] == '0' && DIGITS@[1] == '1' && DIGITS@[2] == '2' && DIGITS@[3] == '3' && DIGITS@[4] == '4'
        && DIGITS@[5] == '5' && DIGITS@[6] == '6' && DIGITS@[7] == '7' && DIGITS@[8] == '8' && DIGITS@[9] == '9');
    assert(DIGITS@[d] as u32 - '0' as u32 == d);
    if n < 10 {
        let s = seq![DIGITS@[n as int]];
        assert(s.drop_last() =~= Seq::<char>::empty());
        assert(decimal(s.drop_last()) == 0);
    } else {
        lemma_written_digits(n / 10);
        let front = decimal_text(n / 10);
        let s = front.push(DIGITS@[d]);
        assert(s.drop_last() =~= front);
        assert forall|i: int| 0 <= i < s.len() implies ascii_digit(#[trigger] s[i]) by {
            if i < front.len() {
                assert(s[i] == front[i]);
            }
        }
    }
}

/// A number that is written in decimal reads back as itself.
pub proof fn law_written_number_reads_back(n: u64)
    ensures
        parsed_u64(decimal_text(n as nat)) == Some(n),
{
    lemma_written_digits(n as nat);
    let s = decimal_text(n as nat);
    assert(ascii_digit(s[0]));
    assert(unsigned_digits(s) == s);
}

/// White space among the characters of ASCII: tabulators, line ends and blanks.
pub proof fn law_white_space_of_ascii(c: char)
    requires
        c < '\u{80}',
    ensures
        whitespace(c) == (c == '\t' || c == '\n' || c == '\u{b}' || c == '\u{c}' || c == '\r' || c == ' '),
{
}

proof fn lemma_trimmed_start_is(front: Seq<char>, rest: Seq<char>)
    requires
        forall|i: int| 0 <= i < front.len() ==> whitespace(#[trigger] front[i]),
        rest.len() > 0 ==> !whitespace(rest[0]),
    ensures
        trimmed_start(front + rest) == rest,
    decreases front.len(),
{
    if front.len() == 0 {
        assert(front + rest =~= rest);
    } else {
        assert((front + rest).skip(1) =~= front.skip(1) + rest);
        assert((front + rest)[0] == front[0]);
        lemma_trimmed_start_is(front.skip(1), rest);
    }
}

proof fn lemma_trimmed_end_is(rest: Seq<char>, back: Seq<char>)
    requires
        forall|i: int| 0 <= i < back.len() ==> whitespace(#[trigger] back[i]),
        rest.len() > 0 ==> !whitespace(rest.last()),
    ensures
        trimmed_end(rest + back) == rest,
    decreases back.len(),
{
    if back.len() == 0 {
        assert(rest + back =~= rest);
    } else {
        assert((rest + back).drop_last() =~= rest + back.drop_last());
        assert((rest + back).last() == back.last());
        lemma_trimmed_end_is(rest, back.drop_last());
    }
}

/// Trimming takes away white space at both ends and nothing else; a text of
/// white space is blank.
pub proof fn law_trim_keeps_the_middle(front: Seq<char>, middle: Seq<char>, back: Seq<char>)
    requires
        forall|i: int| 0 <= i < front.len() ==> whitespace(#[trigger] front[i]),
        forall|i: int| 0 <= i < back.len() ==> whitespace(#[trigger] back[i]),
        middle.len() > 0 ==> !whitespace(middle[0]) && !whitespace(middle.last()),
    ensures
        trimmed(front + middle + back) == middle,
        blank(front + middle + back) == (middle.len() == 0),
{
    if middle.len() == 0 {
        assert(front + middle + back =~= (front + back) + Seq::<char>::empty());
        assert forall|i: int| 0 <= i < (front + back).len() implies whitespace(#[trigger] (front + back)[i]) by {
            if i < front.len() {
                assert((front + back)[i] == front[i]);
            } else {
                assert((front + back)[i] == back[i - front.len()]);
            }
        }
        lemma_trimmed_start_is(front + back, Seq::<char>::empty());
        assert(middle =~= Seq::<char>::empty());
    } else {
        assert(front + middle + back =~= front + (middle + back));
        assert((middle + back)[0] == middle[0]);
        lemma_trimmed_start_is(front, middle + back);
        lemma_trimmed_end_is(middle, back);
    }
}

/// Letters of ASCII are lowered one by one, and nothing else changes.
pub proof fn law_letters_are_lowered(s: Seq<char>, i: int)
    requires
        0 <= i < s.len(),
    ensures
        ascii_lowered(s).len() == s.len(),
        'A' <= s[i] <= 'Z' ==> ascii_lowered(s)[i] as u32 == s[i] as u32 + 32,
        !('A' <= s[i] <= 'Z') ==> ascii_lowered(s)[i] == s[i],
{
    if 'A' <= s[i] <= 'Z' {
        lemma_letter(s[i]);
    }
}

/// A text holds a part exactly where it has something before it and something
/// after it.
pub proof fn law_text_holds_a_part(s: Seq<char>, before: Seq<char>, part: Seq<char>, after: Seq<char>)
    ensures
        contains_text(before + part + after, part),
        contains_text(s, part) ==> exists|k: int|
            0 <= k && k + part.len() <= s.len() && s == #[trigger] s.take(k) + part + s.skip(k + part.len()),
{
    let whole = before + part + after;
    let at = before.len() as int;
    assert(whole.subrange(at, at + part.len()) =~= part);
    assert(occurs_at(whole, part, at));
    if contains_text(s, part) {
        let k = choose|k: int| #[trigger] occurs_at(s, part, k);
        assert(s =~= s.take(k) + part + s.skip(k + part.len())) by {
            assert forall|i: int| 0 <= i < part.len() implies #[trigger] part[i] == s[k + i] by {
                assert(s.subrange(k, k + part.len())[i] == s[k + i]);
            }
        }
    }
}

} // verus!
