//! Character-level text handling shared by the parsers and formatters of the
//! library: line splitting, whitespace tokenising, trimming, searching and the
//! decimal rendering and parsing of integers, each given by a spec function
//! that states what the standard library's function of the same purpose does.
use vstd::prelude::*;

verus! {

// ---------------------------------------------------------------------------
// Characters
// ---------------------------------------------------------------------------

/// Unicode `White_Space`, which is what `char::is_whitespace` tests.
pub open spec fn is_ws(c: char) -> bool {
    ||| c == ' '
    ||| ('\t' <= c && c <= '\r')
    ||| c == '\u{85}'
    ||| c == '\u{a0}'
    ||| c == '\u{1680}'
    ||| ('\u{2000}' <= c && c <= '\u{200a}')
    ||| c == '\u{2028}'
    ||| c == '\u{2029}'
    ||| c == '\u{202f}'
    ||| c == '\u{205f}'
    ||| c == '\u{3000}'
}

pub fn is_whitespace(c: char) -> (res: bool)
    ensures
        res == is_ws(c),
{
    c == ' ' || ('\t' <= c && c <= '\r') || c == '\u{85}' || c == '\u{a0}' || c == '\u{1680}'
        || ('\u{2000}' <= c && c <= '\u{200a}') || c == '\u{2028}' || c == '\u{2029}' || c
        == '\u{202f}' || c == '\u{205f}' || c == '\u{3000}'
}

pub open spec fn is_digit(c: char) -> bool {
    '0' <= c && c <= '9'
}

pub open spec fn digit_value(c: char) -> nat {
    (c as int - '0' as int) as nat
}

pub open spec fn digit_char(d: nat) -> char {
    if d == 0 {
        '0'
    } else if d == 1 {
        '1'
    } else if d == 2 {
        '2'
    } else if d == 3 {
        '3'
    } else if d == 4 {
        '4'
    } else if d == 5 {
        '5'
    } else if d == 6 {
        '6'
    } else if d == 7 {
        '7'
    } else if d == 8 {
        '8'
    } else {
        '9'
    }
}

// ---------------------------------------------------------------------------
// Conversions between `str`/`String` and character vectors
// ---------------------------------------------------------------------------

/// The characters of `s`, in order (`str::chars` collected into a vector).
#[verifier::external_body]
pub(crate) fn chars_of(s: &str) -> (v: Vec<char>)
    ensures
        v@ == s@,
{
    s.chars().collect()
}

/// The string made of the characters `v`, in order (collecting an iterator of
/// `char` into a `String`).
#[verifier::external_body]
pub(crate) fn string_of(v: &[char]) -> (s: String)
    ensures
        s@ == v@,
{
    v.iter().collect()
}

/// A string holding the same characters as the literal or slice `s`.
pub fn owned(s: &str) -> (res: String)
    ensures
        res@ == s@,
{
    s.to_owned()
}

/// Concatenation of two strings.
pub fn concat(a: &str, b: &str) -> (res: String)
    ensures
        res@ == a@ + b@,
{
    let v1 = chars_of(a);
    let v2 = chars_of(b);
    let mut v = v1;
    let mut i: usize = 0;
    while i < v2.len()
        invariant
            i <= v2.len(),
            v2@ == b@,
            v@ == a@ + b@.take(i as int),
        decreases v2.len() - i,
    {
        v.push(v2[i]);
        assert(b@.take(i as int + 1) =~= b@.take(i as int).push(b@[i as int]));
        i = i + 1;
    }
    assert(b@.take(b@.len() as int) =~= b@);
    string_of(&v)
}

/// The text `String::from_utf8_lossy` makes of `bytes`: the decoded
/// characters, with each invalid sequence replaced by U+FFFD.
pub uninterp spec fn utf8_lossy(bytes: Seq<u8>) -> Seq<char>;

/// `String::from_utf8_lossy`: the text of `bytes`; valid UTF-8 is decoded as
/// is.
#[verifier::external_body]
pub(crate) fn decode_lossy(bytes: &[u8]) -> (s: String)
    ensures
        s@ == utf8_lossy(bytes@),
        vstd::utf8::valid_utf8(bytes@) ==> s@ == vstd::utf8::decode_utf8(bytes@),
{
    String::from_utf8_lossy(bytes).into_owned()
}

// ---------------------------------------------------------------------------
// Decimal rendering
// ---------------------------------------------------------------------------

/// The decimal digits of `n`, most significant first, without leading zeros.
pub open spec fn decimal(n: nat) -> Seq<char>
    decreases n,
{
    if n < 10 {
        seq![digit_char(n)]
    } else {
        decimal(n / 10).push(digit_char(n % 10))
    }
}

/// Decimal rendering of a signed integer: a `-` before the digits of its
/// magnitude when it is negative.
pub open spec fn decimal_signed(n: int) -> Seq<char> {
    if n < 0 {
        seq!['-'] + decimal((-n) as nat)
    } else {
        decimal(n as nat)
    }
}

/// `u64::to_string`: the decimal digits of `n`.
#[verifier::external_body]
pub(crate) fn u64_to_decimal(n: u64) -> (s: String)
    ensures
        s@ == decimal(n as nat),
{
    n.to_string()
}

/// `i64::to_string`: the decimal rendering of `n`, with a leading `-` when
/// negative.
#[verifier::external_body]
pub(crate) fn i64_to_decimal(n: i64) -> (s: String)
    ensures
        s@ == decimal_signed(n as int),
{
    n.to_string()
}

/// The upper-case hexadecimal digit for `d` (below 16).
pub open spec fn hex_digit(d: nat) -> char {
    if d < 10 {
        digit_char(d)
    } else {
        (55 + d) as char
    }
}

/// The upper-case hexadecimal digits of `n`, most significant first, without
/// leading zeros.
pub open spec fn hex_upper(n: nat) -> Seq<char>
    decreases n,
{
    if n < 16 {
        seq![hex_digit(n)]
    } else {
        hex_upper(n / 16).push(hex_digit(n % 16))
    }
}

/// `format!("{:X}", n)`: the upper-case hexadecimal digits of `n`.
#[verifier::external_body]
pub(crate) fn u32_to_hex(n: u32) -> (s: String)
    ensures
        s@ == hex_upper(n as nat),
{
    format!("{:X}", n)
}

// ---------------------------------------------------------------------------
// Decimal parsing (`str::parse::<u32>` and `str::parse::<i32>`)
// ---------------------------------------------------------------------------

pub open spec fn all_digits(s: Seq<char>) -> bool {
    forall|i: int| 0 <= i < s.len() ==> is_digit(#[trigger] s[i])
}

pub open spec fn digits_value(s: Seq<char>) -> nat
    decreases s.len(),
{
    if s.len() == 0 {
        0
    } else {
        digits_value(s.drop_last()) * 10 + digit_value(s.last())
    }
}

/// The magnitude part and its value when `body` is a nonempty run of digits.
pub open spec fn digit_run_value(body: Seq<char>) -> Option<nat> {
    if body.len() > 0 && all_digits(body) {
        Some(digits_value(body))
    } else {
        None
    }
}

/// What `str::parse::<u32>` returns on `s`: an optional `+`, then one or more
/// ASCII digits whose value fits in a `u32`.
pub open spec fn parse_u32_spec(s: Seq<char>) -> Option<u32> {
    let body = if s.len() > 0 && s[0] == '+' {
        s.drop_first()
    } else {
        s
    };
    match digit_run_value(body) {
        Some(v) => if v <= u32::MAX {
            Some(v as u32)
        } else {
            None
        },
        None => None,
    }
}

/// What `str::parse::<i32>` returns on `s`: an optional `+` or `-`, then one
/// or more ASCII digits, the signed value lying in the range of `i32`.
pub open spec fn parse_i32_spec(s: Seq<char>) -> Option<i32> {
    let neg = s.len() > 0 && s[0] == '-';
    let body = if s.len() > 0 && (s[0] == '+' || s[0] == '-') {
        s.drop_first()
    } else {
        s
    };
    match digit_run_value(body) {
        Some(v) => {
            let value: int = if neg {
                -(v as int)
            } else {
                v as int
            };
            if i32::MIN <= value <= i32::MAX {
                Some(value as i32)
            } else {
                None
            }
        },
        None => None,
    }
}

proof fn lemma_digits_value_take_step(s: Seq<char>, k: int)
    requires
        0 <= k < s.len(),
    ensures
        digits_value(s.take(k + 1)) == digits_value(s.take(k)) * 10 + digit_value(s[k]),
{
    assert(s.take(k + 1).drop_last() =~= s.take(k));
}

proof fn lemma_digits_value_prefix_le(s: Seq<char>, k: int)
    requires
        0 <= k <= s.len(),
        all_digits(s),
    ensures
        digits_value(s.take(k)) <= digits_value(s),
    decreases s.len() - k,
{
    if k < s.len() {
        lemma_digits_value_take_step(s, k);
        lemma_digits_value_prefix_le(s, k + 1);
    } else {
        assert(s.take(k) =~= s);
    }
}

/// Scans `body` as a run of digits; `Some(v)` when it is a nonempty run whose
/// value `v` is at most `limit`.
fn digit_run_bounded(body: &[char], limit: u64) -> (res: Option<u64>)
    requires
        limit >= 9,
    ensures
        match res {
            Some(v) => digit_run_value(body@) == Some(v as nat) && v <= limit,
            None => digit_run_value(body@) is None || digit_run_value(body@)->0 > limit,
        },
{
    if body.len() == 0 {
        return None;
    }
    let mut acc: u64 = 0;
    let mut i: usize = 0;
    while i < body.len()
        invariant
            i <= body.len(),
            acc <= limit,
            limit >= 9,
            forall|j: int| 0 <= j < i ==> is_digit(#[trigger] body@[j]),
            acc as nat == digits_value(body@.take(i as int)),
        decreases body.len() - i,
    {
        let c = body[i];
        if !('0' <= c && c <= '9') {
            assert(!all_digits(body@));
            return None;
        }
        let d = (c as u32 - '0' as u32) as u64;
        proof {
            lemma_digits_value_take_step(body@, i as int);
        }
        if acc > (limit - d) / 10 {
            proof {
                if all_digits(body@) {
                    lemma_digits_value_prefix_le(body@, i as int + 1);
                    assert(acc * 10 + d > limit) by (nonlinear_arith)
                        requires
                            acc > (limit - d) / 10,
                            d <= 9,
                            d <= limit,
                    ;
                }
            }
            return None;
        }
        assert(acc * 10 + d <= limit) by (nonlinear_arith)
            requires
                acc <= (limit - d) / 10,
                d <= limit,
        ;
        acc = acc * 10 + d;
        i = i + 1;
    }
    assert(body@.take(body@.len() as int) =~= body@);
    Some(acc)
}

/// `str::parse::<u32>` on a character sequence.
pub fn parse_u32(s: &[char]) -> (res: Option<u32>)
    ensures
        res == parse_u32_spec(s@),
{
    let body: &[char] = if s.len() > 0 && s[0] == '+' {
        slice_from(s, 1)
    } else {
        s
    };
    assert(body@ == (if s@.len() > 0 && s@[0] == '+' {
        s@.drop_first()
    } else {
        s@
    }));
    match digit_run_bounded(body, 0xffff_ffff) {
        Some(v) => Some(v as u32),
        None => None,
    }
}

/// `str::parse::<i32>` on a character sequence.
pub fn parse_i32(s: &[char]) -> (res: Option<i32>)
    ensures
        res == parse_i32_spec(s@),
{
    let neg = s.len() > 0 && s[0] == '-';
    let body: &[char] = if s.len() > 0 && (s[0] == '+' || s[0] == '-') {
        slice_from(s, 1)
    } else {
        s
    };
    assert(body@ == (if s@.len() > 0 && (s@[0] == '+' || s@[0] == '-') {
        s@.drop_first()
    } else {
        s@
    }));
    let limit: u64 = if neg {
        0x8000_0000
    } else {
        0x7fff_ffff
    };
    match digit_run_bounded(body, limit) {
        Some(v) => {
            if neg {
                Some((0 - (v as i64)) as i32)
            } else {
                Some(v as i32)
            }
        },
        None => None,
    }
}

/// The elements of `s` from `start` on.
pub fn slice_from(s: &[char], start: usize) -> (res: &[char])
    requires
        start <= s@.len(),
    ensures
        res@ == s@.skip(start as int),
{
    vstd::slice::slice_subrange(s, start, s.len())
}

/// The elements of `s` in `[start, end)`, as a new vector.
pub fn sub_vec(s: &[char], start: usize, end: usize) -> (res: Vec<char>)
    requires
        start <= end <= s@.len(),
    ensures
        res@ == s@.subrange(start as int, end as int),
{
    let mut v: Vec<char> = Vec::new();
    let mut i = start;
    while i < end
        invariant
            start <= i <= end <= s@.len(),
            v@ == s@.subrange(start as int, i as int),
        decreases end - i,
    {
        v.push(s[i]);
        assert(s@.subrange(start as int, i + 1) =~= s@.subrange(start as int, i as int).push(
            s@[i as int],
        ));
        i = i + 1;
    }
    v
}

// ---------------------------------------------------------------------------
// Splitting
// ---------------------------------------------------------------------------

/// The character sequences of a sequence of strings.
pub open spec fn string_views(v: Seq<String>) -> Seq<Seq<char>> {
    v.map_values(|x: String| x@)
}

/// The character sequences held by a vector of character vectors.
pub open spec fn views(v: Seq<Vec<char>>) -> Seq<Seq<char>> {
    v.map_values(|x: Vec<char>| x@)
}

/// `str::split(sep)`: the pieces between occurrences of `sep`, empty pieces
/// included; there is always at least one piece.
pub open spec fn split_on(s: Seq<char>, sep: char) -> Seq<Seq<char>>
    decreases s.len(),
{
    if s.len() == 0 {
        seq![Seq::empty()]
    } else {
        let prev = split_on(s.drop_last(), sep);
        if s.last() == sep {
            prev.push(Seq::empty())
        } else {
            prev.update(prev.len() - 1, prev.last().push(s.last()))
        }
    }
}

pub proof fn lemma_split_on_nonempty(s: Seq<char>, sep: char)
    ensures
        split_on(s, sep).len() >= 1,
    decreases s.len(),
{
    if s.len() > 0 {
        lemma_split_on_nonempty(s.drop_last(), sep);
    }
}

pub fn split_chars(s: &[char], sep: char) -> (res: Vec<Vec<char>>)
    ensures
        views(res@) == split_on(s@, sep),
        res@.len() >= 1,
{
    let mut res: Vec<Vec<char>> = Vec::new();
    let mut cur: Vec<char> = Vec::new();
    let mut i: usize = 0;
    assert(s@.take(0) =~= Seq::<char>::empty());
    assert(views(res@).push(cur@) =~= split_on(s@.take(0), sep));
    while i < s.len()
        invariant
            i <= s@.len(),
            views(res@).push(cur@) == split_on(s@.take(i as int), sep),
        decreases s.len() - i,
    {
        let c = s[i];
        let ghost prev = views(res@).push(cur@);
        assert(s@.take(i as int + 1).drop_last() =~= s@.take(i as int));
        if c == sep {
            res.push(cur);
            cur = Vec::new();
            assert(views(res@).push(cur@) =~= prev.push(Seq::empty()));
        } else {
            cur.push(c);
            assert(views(res@).push(cur@) =~= prev.update(
                prev.len() - 1,
                prev.last().push(c),
            ));
        }
        i = i + 1;
    }
    assert(s@.take(s@.len() as int) =~= s@);
    res.push(cur);
    res
}

/// A line ending of `\r\n` loses its `\r` as well.
pub open spec fn strip_cr(l: Seq<char>) -> Seq<char> {
    if l.len() > 0 && l.last() == '\r' {
        l.drop_last()
    } else {
        l
    }
}

/// `str::lines`: the pieces between `\n`s, each losing a `\r` just before its
/// `\n`; a final empty piece (the text ends with `\n`, or is empty) is not a
/// line.
pub open spec fn lines(s: Seq<char>) -> Seq<Seq<char>> {
    let segs = split_on(s, '\n');
    let full = Seq::new((segs.len() - 1) as nat, |k: int| strip_cr(segs[k]));
    if segs.last().len() == 0 {
        full
    } else {
        full.push(segs.last())
    }
}

fn strip_cr_vec(l: Vec<char>) -> (res: Vec<char>)
    ensures
        res@ == strip_cr(l@),
{
    let mut l = l;
    if l.len() > 0 && l[l.len() - 1] == '\r' {
        l.pop();
    }
    l
}

pub fn split_lines(s: &[char]) -> (res: Vec<Vec<char>>)
    ensures
        views(res@) == lines(s@),
{
    let segs = split_chars(s, '\n');
    let n = segs.len();
    let mut res: Vec<Vec<char>> = Vec::new();
    let mut k: usize = 0;
    while k + 1 < n
        invariant
            n == segs@.len(),
            n >= 1,
            views(segs@) == split_on(s@, '\n'),
            k + 1 <= n,
            res@.len() == k,
            forall|j: int| 0 <= j < k ==> #[trigger] res@[j]@ == strip_cr(segs@[j]@),
        decreases n - k,
    {
        let seg = sub_vec(&segs[k], 0, segs[k].len());
        assert(seg@ =~= segs@[k as int]@);
        res.push(strip_cr_vec(seg));
        k = k + 1;
    }
    let ghost full = Seq::new((n - 1) as nat, |j: int| strip_cr(views(segs@)[j]));
    assert(views(res@) =~= full);
    if segs[n - 1].len() > 0 {
        let last = sub_vec(&segs[n - 1], 0, segs[n - 1].len());
        assert(last@ =~= segs@[n - 1]@);
        res.push(last);
        assert(views(res@) =~= full.push(views(segs@)[n - 1]));
    }
    res
}

/// `str::split_whitespace`: the maximal runs of non-whitespace characters.
pub open spec fn tokens(s: Seq<char>) -> Seq<Seq<char>>
    decreases s.len(),
{
    if s.len() == 0 {
        seq![]
    } else if is_ws(s.last()) {
        tokens(s.drop_last())
    } else {
        let t = tokens(s.drop_last());
        if s.len() >= 2 && !is_ws(s[s.len() - 2]) {
            t.update(t.len() - 1, t.last().push(s.last()))
        } else {
            t.push(seq![s.last()])
        }
    }
}

pub fn split_whitespace(s: &[char]) -> (res: Vec<Vec<char>>)
    ensures
        views(res@) == tokens(s@),
{
    let mut res: Vec<Vec<char>> = Vec::new();
    let mut cur: Vec<char> = Vec::new();
    let mut i: usize = 0;
    while i < s.len()
        invariant
            i <= s@.len(),
            cur@.len() > 0 <==> (i > 0 && !is_ws(s@[i - 1])),
            cur@.len() > 0 ==> views(res@).push(cur@) == tokens(s@.take(i as int)),
            cur@.len() == 0 ==> views(res@) == tokens(s@.take(i as int)),
        decreases s.len() - i,
    {
        let c = s[i];
        let ghost t_prev = tokens(s@.take(i as int));
        assert(s@.take(i as int + 1).drop_last() =~= s@.take(i as int));
        assert(s@.take(i as int + 1).last() == c);
        if is_whitespace(c) {
            if cur.len() > 0 {
                res.push(cur);
                cur = Vec::new();
            }
        } else {
            if cur.len() > 0 {
                assert(s@.take(i as int + 1)[i - 1] == s@[i - 1]);
                let ghost before = views(res@).push(cur@);
                cur.push(c);
                assert(views(res@).push(cur@) =~= before.update(
                    before.len() - 1,
                    before.last().push(c),
                ));
            } else {
                if i > 0 {
                    assert(s@.take(i as int + 1)[i - 1] == s@[i - 1]);
                }
                cur.push(c);
                assert(cur@ =~= seq![c]);
            }
        }
        i = i + 1;
    }
    assert(s@.take(s@.len() as int) =~= s@);
    if cur.len() > 0 {
        res.push(cur);
    }
    res
}

// ---------------------------------------------------------------------------
// Trimming
// ---------------------------------------------------------------------------

pub open spec fn trim_start(s: Seq<char>) -> Seq<char>
    decreases s.len(),
{
    if s.len() > 0 && is_ws(s[0]) {
        trim_start(s.drop_first())
    } else {
        s
    }
}

pub open spec fn trim_end(s: Seq<char>) -> Seq<char>
    decreases s.len(),
{
    if s.len() > 0 && is_ws(s.last()) {
        trim_end(s.drop_last())
    } else {
        s
    }
}

/// `str::trim`: without leading and trailing whitespace.
pub open spec fn trim(s: Seq<char>) -> Seq<char> {
    trim_end(trim_start(s))
}

pub fn trim_chars(s: &[char]) -> (res: Vec<char>)
    ensures
        res@ == trim(s@),
{
    let mut a: usize = 0;
    assert(s@.skip(0) =~= s@);
    while a < s.len() && is_whitespace(s[a])
        invariant
            a <= s@.len(),
            trim_start(s@) == trim_start(s@.skip(a as int)),
        decreases s.len() - a,
    {
        assert(s@.skip(a as int).drop_first() =~= s@.skip(a as int + 1));
        a = a + 1;
    }
    assert(trim_start(s@.skip(a as int)) == s@.skip(a as int));
    let mut b: usize = s.len();
    while b > a && is_whitespace(s[b - 1])
        invariant
            a <= b <= s@.len(),
            trim(s@) == trim_end(s@.subrange(a as int, b as int)),
        decreases b,
    {
        assert(s@.subrange(a as int, b as int).drop_last() =~= s@.subrange(a as int, b - 1));
        b = b - 1;
    }
    assert(s@.skip(a as int) =~= s@.subrange(a as int, s@.len() as int));
    sub_vec(s, a, b)
}

// ---------------------------------------------------------------------------
// Floating-point literals (`str::parse::<f64>` acceptance)
// ---------------------------------------------------------------------------

/// ASCII lowercase of one character.
pub open spec fn lower(c: char) -> char {
    if 'A' <= c && c <= 'Z' {
        ((c as u32) + 32) as char
    } else {
        c
    }
}

/// Position of the first `c` in `s`, or the length of `s` when there is none.
pub open spec fn first_index_of(s: Seq<char>, c: char) -> nat
    decreases s.len(),
{
    if s.len() == 0 {
        0
    } else if s[0] == c {
        0
    } else {
        1 + first_index_of(s.drop_first(), c)
    }
}

/// Digits with at most one decimal point, and at least one digit.
pub open spec fn is_mantissa(t: Seq<char>) -> bool {
    let d = first_index_of(t, '.');
    if d == t.len() {
        t.len() > 0 && all_digits(t)
    } else {
        all_digits(t.take(d as int)) && all_digits(t.skip(d as int + 1)) && t.len() > 1
    }
}

/// `e`, an optional sign, then one or more digits.
pub open spec fn is_exponent(e: Seq<char>) -> bool {
    e.len() >= 2 && e[0] == 'e' && {
        let r = e.drop_first();
        let digits = if r[0] == '+' || r[0] == '-' {
            r.drop_first()
        } else {
            r
        };
        digits.len() > 0 && all_digits(digits)
    }
}

/// A (lowercased) number: a mantissa, optionally followed by an exponent.
pub open spec fn is_number(s: Seq<char>) -> bool {
    let m = first_index_of(s, 'e');
    is_mantissa(s.take(m as int)) && (m == s.len() || is_exponent(s.skip(m as int)))
}

/// Whether `str::parse::<f64>` accepts `s`: an optional sign, then `inf`,
/// `infinity`, `nan` or a decimal number with optional exponent, letters in
/// any case.
pub open spec fn is_float_literal(s: Seq<char>) -> bool {
    let body = if s.len() > 0 && (s[0] == '+' || s[0] == '-') {
        s.drop_first()
    } else {
        s
    };
    let lb = body.map_values(|c: char| lower(c));
    lb == "inf"@ || lb == "infinity"@ || lb == "nan"@ || is_number(lb)
}

fn lower_char(c: char) -> (r: char)
    ensures
        r == lower(c),
{
    if 'A' <= c && c <= 'Z' {
        let code = (c as u32) + 32;
        assert(0x61 <= code <= 0x7a);
        char_from_ascii(code)
    } else {
        c
    }
}

/// The character with ASCII code `code`.
#[verifier::external_body]
pub(crate) fn char_from_ascii(code: u32) -> (c: char)
    requires
        code < 128,
    ensures
        c == code as char,
{
    char::from_u32(code).unwrap()
}

pub(crate) fn lowercase_chars(s: &[char]) -> (r: Vec<char>)
    ensures
        r@ == s@.map_values(|c: char| lower(c)),
{
    let mut r: Vec<char> = Vec::new();
    let mut i: usize = 0;
    while i < s.len()
        invariant
            i <= s@.len(),
            r@ == s@.take(i as int).map_values(|c: char| lower(c)),
        decreases s.len() - i,
    {
        r.push(lower_char(s[i]));
        assert(s@.take(i as int + 1).map_values(|c: char| lower(c)) =~= s@.take(i as int).map_values(
            |c: char| lower(c),
        ).push(lower(s@[i as int])));
        i = i + 1;
    }
    assert(s@.take(s@.len() as int) =~= s@);
    r
}

proof fn lemma_first_index_step(s: Seq<char>, c: char, i: int)
    requires
        0 <= i < s.len(),
        forall|j: int| 0 <= j < i ==> s[j] != c,
    ensures
        s[i] == c ==> first_index_of(s, c) == i,
        first_index_of(s, c) >= i,
    decreases i,
{
    if i > 0 {
        lemma_first_index_step(s.drop_first(), c, i - 1);
    }
}

proof fn lemma_first_index_none(s: Seq<char>, c: char)
    requires
        forall|j: int| 0 <= j < s.len() ==> s[j] != c,
    ensures
        first_index_of(s, c) == s.len(),
    decreases s.len(),
{
    if s.len() > 0 {
        lemma_first_index_none(s.drop_first(), c);
    }
}

fn index_of(s: &[char], c: char) -> (i: usize)
    ensures
        i == first_index_of(s@, c),
        i <= s@.len(),
{
    let mut i: usize = 0;
    while i < s.len()
        invariant
            i <= s@.len(),
            forall|j: int| 0 <= j < i ==> s@[j] != c,
        decreases s.len() - i,
    {
        if s[i] == c {
            proof {
                lemma_first_index_step(s@, c, i as int);
            }
            return i;
        }
        i = i + 1;
    }
    proof {
        lemma_first_index_none(s@, c);
    }
    i
}

fn all_digit_chars(s: &[char]) -> (b: bool)
    ensures
        b == all_digits(s@),
{
    let mut i: usize = 0;
    while i < s.len()
        invariant
            i <= s@.len(),
            forall|j: int| 0 <= j < i ==> is_digit(#[trigger] s@[j]),
        decreases s.len() - i,
    {
        if !('0' <= s[i] && s[i] <= '9') {
            assert(!is_digit(s@[i as int]));
            return false;
        }
        i = i + 1;
    }
    true
}

fn mantissa_ok(t: &[char]) -> (b: bool)
    ensures
        b == is_mantissa(t@),
{
    let d = index_of(t, '.');
    if d == t.len() {
        t.len() > 0 && all_digit_chars(t)
    } else {
        let before = sub_vec(t, 0, d);
        let after = sub_vec(t, d + 1, t.len());
        assert(before@ =~= t@.take(d as int));
        assert(after@ =~= t@.skip(d + 1));
        all_digit_chars(&before) && all_digit_chars(&after) && t.len() > 1
    }
}

fn exponent_ok(e: &[char]) -> (b: bool)
    ensures
        b == is_exponent(e@),
{
    if e.len() < 2 || e[0] != 'e' {
        return false;
    }
    let r = sub_vec(e, 1, e.len());
    assert(r@ =~= e@.drop_first());
    let digits = if r[0] == '+' || r[0] == '-' {
        sub_vec(&r, 1, r.len())
    } else {
        sub_vec(&r, 0, r.len())
    };
    assert(digits@ =~= (if r@[0] == '+' || r@[0] == '-' {
        r@.drop_first()
    } else {
        r@
    }));
    digits.len() > 0 && all_digit_chars(&digits)
}

fn eq_chars(a: &[char], b: &str) -> (r: bool)
    ensures
        r == (a@ == b@),
{
    let bv = chars_of(b);
    if a.len() != bv.len() {
        return false;
    }
    let m = matches_at(a, &bv, 0);
    assert(a@.subrange(0, bv@.len() as int) =~= a@);
    m
}

/// Whether `str::parse::<f64>` accepts `s`.
pub fn is_float_text(s: &[char]) -> (b: bool)
    ensures
        b == is_float_literal(s@),
{
    let body = if s.len() > 0 && (s[0] == '+' || s[0] == '-') {
        sub_vec(s, 1, s.len())
    } else {
        sub_vec(s, 0, s.len())
    };
    assert(body@ =~= (if s@.len() > 0 && (s@[0] == '+' || s@[0] == '-') {
        s@.drop_first()
    } else {
        s@
    }));
    let lb = lowercase_chars(&body);
    if eq_chars(&lb, "inf") || eq_chars(&lb, "infinity") || eq_chars(&lb, "nan") {
        return true;
    }
    let m = index_of(&lb, 'e');
    let mant = sub_vec(&lb, 0, m);
    assert(mant@ =~= lb@.take(m as int));
    if !mantissa_ok(&mant) {
        return false;
    }
    if m == lb.len() {
        return true;
    }
    let ex = sub_vec(&lb, m, lb.len());
    assert(ex@ =~= lb@.skip(m as int));
    exponent_ok(&ex)
}

// ---------------------------------------------------------------------------
// Searching
// ---------------------------------------------------------------------------

pub open spec fn occurs_at(hay: Seq<char>, needle: Seq<char>, i: int) -> bool {
    0 <= i && i + needle.len() <= hay.len() && hay.subrange(i, i + needle.len()) =~= needle
}

/// `str::contains` with a string pattern.
pub open spec fn contains(hay: Seq<char>, needle: Seq<char>) -> bool {
    exists|i: int| occurs_at(hay, needle, i)
}

pub open spec fn starts_with(s: Seq<char>, prefix: Seq<char>) -> bool {
    occurs_at(s, prefix, 0)
}

pub open spec fn ends_with(s: Seq<char>, suffix: Seq<char>) -> bool {
    occurs_at(s, suffix, s.len() - suffix.len())
}

pub fn matches_at(hay: &[char], needle: &[char], i: usize) -> (res: bool)
    ensures
        res == occurs_at(hay@, needle@, i as int),
{
    if i > hay.len() || needle.len() > hay.len() - i {
        return false;
    }
    let mut k: usize = 0;
    while k < needle.len()
        invariant
            i + needle@.len() <= hay@.len(),
            i + needle.len() <= hay.len(),
            k <= needle@.len(),
            forall|j: int| 0 <= j < k ==> hay@[i + j] == needle@[j],
        decreases needle.len() - k,
    {
        if hay[i + k] != needle[k] {
            assert(hay@.subrange(i as int, i + needle@.len())[k as int] != needle@[k as int]);
            return false;
        }
        k = k + 1;
    }
    assert(hay@.subrange(i as int, i + needle@.len()) =~= needle@);
    true
}

pub fn contains_chars(hay: &[char], needle: &[char]) -> (res: bool)
    ensures
        res == contains(hay@, needle@),
{
    if needle.len() > hay.len() {
        return false;
    }
    let mut i: usize = 0;
    while i <= hay.len() - needle.len()
        invariant
            needle@.len() <= hay@.len(),
            i <= hay@.len() - needle@.len() + 1,
            forall|j: int| 0 <= j < i ==> !occurs_at(hay@, needle@, j),
        decreases hay.len() - needle.len() + 1 - i,
    {
        if matches_at(hay, needle, i) {
            return true;
        }
        i = i + 1;
    }
    assert forall|j: int| !occurs_at(hay@, needle@, j) by {
        if 0 <= j < i {
        }
    }
    false
}

/// Equality of two strings, character by character.
pub fn str_eq(a: &str, b: &str) -> (res: bool)
    ensures
        res == (a@ == b@),
{
    let x = chars_of(a);
    let y = chars_of(b);
    if x.len() != y.len() {
        return false;
    }
    let r = matches_at(&x, &y, 0);
    if r {
        assert(x@ =~= x@.subrange(0, y@.len() as int));
    } else {
        assert(!(x@.subrange(0, y@.len() as int) =~= y@));
        assert(x@.subrange(0, y@.len() as int) =~= x@);
    }
    r
}

pub fn starts_with_chars(s: &[char], prefix: &[char]) -> (res: bool)
    ensures
        res == starts_with(s@, prefix@),
{
    matches_at(s, prefix, 0)
}

pub fn ends_with_chars(s: &[char], suffix: &[char]) -> (res: bool)
    ensures
        res == ends_with(s@, suffix@),
{
    if suffix.len() > s.len() {
        return false;
    }
    matches_at(s, suffix, s.len() - suffix.len())
}

} // verus!
