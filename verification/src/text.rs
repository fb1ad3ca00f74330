//! Character-level text utilities: strings viewed as character sequences,
//! Unicode white space, decimal formatting and parsing, trimming, field
//! splitting and ASCII case handling.
use vstd::prelude::*;
use vstd::utf8::*;

verus! {

// ---------------------------------------------------------------------------
// Strings and character vectors
// ---------------------------------------------------------------------------

/// Appends one character to a `String` (`String::push`).
#[verifier::external_body]
pub(crate) fn push_char(s: &mut String, c: char)
    ensures
        final(s)@ == old(s)@.push(c),
{
    s.push(c);
}

/// The characters of `s`, in order.
pub fn chars_of(s: &str) -> (res: Vec<char>)
    ensures
        res@ == s@,
{
    let mut res: Vec<char> = Vec::new();
    for c in iter: s.chars()
        invariant
            iter.seq() == s@,
            res@ == s@.take(iter.index() as int),
    {
        res.push(c);
    }
    res
}

/// Builds a `String` holding exactly the given characters.
pub fn string_of(chars: &[char]) -> (res: String)
    ensures
        res@ == chars@,
{
    let mut res = String::new();
    let n = chars.len();
    for i in 0..n
        invariant
            n == chars@.len(),
            res@ == chars@.subrange(0, i as int),
    {
        push_char(&mut res, chars[i]);
        assert(chars@.subrange(0, i + 1) == chars@.subrange(0, i as int).push(chars@[i as int]));
    }
    assert(chars@.subrange(0, n as int) == chars@);
    res
}

/// A copy of a string slice as an owned `String`.
pub fn owned(s: &str) -> (res: String)
    ensures
        res@ == s@,
{
    s.to_owned()
}

/// Whether two character sequences are equal.
pub fn same_chars(a: &[char], b: &[char]) -> (res: bool)
    ensures
        res == (a@ == b@),
{
    if a.len() != b.len() {
        return false;
    }
    let n = a.len();
    for i in 0..n
        invariant
            n == a@.len(),
            n == b@.len(),
            forall|j: int| 0 <= j < i ==> a@[j] == b@[j],
    {
        if a[i] != b[i] {
            return false;
        }
    }
    assert(a@ =~= b@);
    true
}

/// Whether two strings hold the same characters.
pub fn same_text(a: &str, b: &str) -> (res: bool)
    ensures
        res == (a@ == b@),
{
    let ca = chars_of(a);
    let cb = chars_of(b);
    same_chars(ca.as_slice(), cb.as_slice())
}

/// Appends all characters of `src` to `dst`.
pub fn append_chars(dst: &mut Vec<char>, src: &[char])
    ensures
        final(dst)@ == old(dst)@ + src@,
{
    let n = src.len();
    for i in 0..n
        invariant
            n == src@.len(),
            dst@ == old(dst)@ + src@.subrange(0, i as int),
    {
        dst.push(src[i]);
        assert(src@.subrange(0, i + 1) == src@.subrange(0, i as int).push(src@[i as int]));
    }
    assert(src@.subrange(0, n as int) == src@);
}

/// A copy of `s[lo..hi]`.
pub fn copy_range(s: &[char], lo: usize, hi: usize) -> (res: Vec<char>)
    requires
        lo <= hi <= s@.len(),
    ensures
        res@ == s@.subrange(lo as int, hi as int),
{
    let mut res: Vec<char> = Vec::new();
    let mut i = lo;
    while i < hi
        invariant
            lo <= i <= hi <= s@.len(),
            res@ == s@.subrange(lo as int, i as int),
        decreases hi - i,
    {
        res.push(s[i]);
        assert(s@.subrange(lo as int, i + 1) == s@.subrange(lo as int, i as int).push(s@[i as int]));
        i += 1;
    }
    res
}

/// The UTF-8 bytes of a character sequence.
pub fn utf8_bytes(s: &str) -> (res: Vec<u8>)
    ensures
        res@ == encode_utf8(s@),
{
    let b = s.as_bytes();
    let mut res: Vec<u8> = Vec::new();
    let n = b.len();
    for i in 0..n
        invariant
            n == b@.len(),
            b@ == encode_utf8(s@),
            res@ == b@.subrange(0, i as int),
    {
        res.push(b[i]);
        assert(b@.subrange(0, i + 1) == b@.subrange(0, i as int).push(b@[i as int]));
    }
    assert(b@.subrange(0, n as int) == b@);
    res
}

/// Decodes `bytes` as UTF-8 (`std::str::from_utf8`): `None` exactly when the
/// bytes are not valid UTF-8, else the decoded characters.
#[verifier::external_body]
pub(crate) fn utf8_decode(bytes: &[u8]) -> (res: Option<String>)
    ensures
        res is Some <==> valid_utf8(bytes@),
        res matches Some(s) ==> s@ == decode_utf8(bytes@),
{
    std::str::from_utf8(bytes).ok().map(|s| s.to_string())
}

// ---------------------------------------------------------------------------
// White space
// ---------------------------------------------------------------------------

/// Unicode `White_Space`, the property that `char::is_whitespace` tests.
pub open spec fn is_white_space(c: char) -> bool {
    ||| ('\u{9}' <= c && c <= '\u{d}')
    ||| c == ' '
    ||| c == '\u{85}'
    ||| c == '\u{a0}'
    ||| c == '\u{1680}'
    ||| ('\u{2000}' <= c && c <= '\u{200a}')
    ||| c == '\u{2028}'
    ||| c == '\u{2029}'
    ||| c == '\u{202f}'
    ||| c == '\u{205f}'
    ||| c == '\u{3000}'
}

/// Whether `c` is Unicode white space (the same answer as `char::is_whitespace`).
pub fn is_whitespace(c: char) -> (res: bool)
    ensures
        res == is_white_space(c),
{
    ('\u{9}' <= c && c <= '\u{d}') || c == ' ' || c == '\u{85}' || c == '\u{a0}' || c
        == '\u{1680}' || ('\u{2000}' <= c && c <= '\u{200a}') || c == '\u{2028}' || c
        == '\u{2029}' || c == '\u{202f}' || c == '\u{205f}' || c == '\u{3000}'
}

/// The predicate "is not white space".
pub open spec fn not_white_space() -> spec_fn(char) -> bool {
    |c: char| !is_white_space(c)
}

/// `s` without its white-space characters.
#[verifier::opaque]
pub open spec fn without_white_space(s: Seq<char>) -> Seq<char> {
    s.filter(not_white_space())
}

/// The predicate "differs from `x`".
pub open spec fn differs_from(x: char) -> spec_fn(char) -> bool {
    |c: char| c != x
}

/// `s` without any occurrence of `x`.
#[verifier::opaque]
pub open spec fn without_char(s: Seq<char>, x: char) -> Seq<char> {
    s.filter(differs_from(x))
}

proof fn lemma_filter_step(s: Seq<char>, i: int, p: spec_fn(char) -> bool)
    requires
        0 <= i < s.len(),
    ensures
        s.take(i + 1).filter(p) == (if p(s[i]) {
            s.take(i).filter(p).push(s[i])
        } else {
            s.take(i).filter(p)
        }),
{
    reveal_with_fuel(Seq::<_>::filter, 1);
    assert(s.take(i + 1).drop_last() == s.take(i));
}

/// Removes every white-space character.
pub fn remove_white_space(s: &[char]) -> (res: Vec<char>)
    ensures
        res@ == without_white_space(s@),
{
    let mut res: Vec<char> = Vec::new();
    let n = s.len();
    for i in 0..n
        invariant
            n == s@.len(),
            res@ == s@.take(i as int).filter(not_white_space()),
    {
        proof {
            lemma_filter_step(s@, i as int, not_white_space());
        }
        if !is_whitespace(s[i]) {
            res.push(s[i]);
        }
    }
    assert(s@.take(n as int) == s@);
    proof {
        reveal(without_white_space);
    }
    res
}

/// Removes every occurrence of `x`.
pub fn remove_char(s: &[char], x: char) -> (res: Vec<char>)
    ensures
        res@ == without_char(s@, x),
{
    let mut res: Vec<char> = Vec::new();
    let n = s.len();
    for i in 0..n
        invariant
            n == s@.len(),
            res@ == s@.take(i as int).filter(differs_from(x)),
    {
        proof {
            lemma_filter_step(s@, i as int, differs_from(x));
        }
        if s[i] != x {
            res.push(s[i]);
        }
    }
    assert(s@.take(n as int) == s@);
    proof {
        reveal(without_char);
    }
    res
}

/// `s` with leading and trailing white space removed (`str::trim`).
pub open spec fn trim(s: Seq<char>) -> Seq<char>
    decreases s.len(),
{
    if s.len() > 0 && is_white_space(s[0]) {
        trim(s.drop_first())
    } else if s.len() > 0 && is_white_space(s.last()) {
        trim(s.drop_last())
    } else {
        s
    }
}

/// Removes leading and trailing white space.
pub fn trim_chars(s: &[char]) -> (res: Vec<char>)
    ensures
        res@ == trim(s@),
{
    let mut lo: usize = 0;
    let mut hi: usize = s.len();
    assert(s@.subrange(0, s@.len() as int) == s@);
    while lo < hi && is_whitespace(s[lo])
        invariant
            lo <= hi <= s@.len(),
            trim(s@.subrange(lo as int, hi as int)) == trim(s@),
        decreases hi - lo,
    {
        assert(s@.subrange(lo as int, hi as int).drop_first() == s@.subrange(lo + 1, hi as int));
        lo += 1;
    }
    while lo < hi && is_whitespace(s[hi - 1])
        invariant
            lo <= hi <= s@.len(),
            trim(s@.subrange(lo as int, hi as int)) == trim(s@),
            lo < hi ==> !is_white_space(s@[lo as int]),
        decreases hi - lo,
    {
        assert(s@.subrange(lo as int, hi as int).drop_last() == s@.subrange(lo as int, hi - 1));
        hi -= 1;
    }
    copy_range(s, lo, hi)
}

// ---------------------------------------------------------------------------
// ASCII case
// ---------------------------------------------------------------------------

/// `char::to_ascii_uppercase`.
pub open spec fn ascii_upper(c: char) -> char {
    if 'a' <= c && c <= 'z' {
        ((c as int) - 32) as char
    } else {
        c
    }
}

/// `char::to_ascii_lowercase`.
pub open spec fn ascii_lower(c: char) -> char {
    if 'A' <= c && c <= 'Z' {
        ((c as int) + 32) as char
    } else {
        c
    }
}

/// Every character of `s` is ASCII.
pub open spec fn all_ascii(s: Seq<char>) -> bool {
    forall|i: int| 0 <= i < s.len() ==> (s[i] as u32) < 128
}

/// `str::eq_ignore_ascii_case`: equal after mapping ASCII letters to lower case.
pub open spec fn eq_ignoring_ascii_case(a: Seq<char>, b: Seq<char>) -> bool {
    &&& a.len() == b.len()
    &&& forall|i: int| 0 <= i < a.len() ==> ascii_lower(a[i]) == ascii_lower(b[i])
}

fn to_ascii_lower(c: char) -> (res: char)
    ensures
        res == ascii_lower(c),
{
    if 'A' <= c && c <= 'Z' {
        let code: u32 = c as u32;
        let lowered: u8 = (code + 32) as u8;
        lowered as char
    } else {
        c
    }
}

/// Whether two character sequences are equal up to ASCII case.
pub fn eq_ignore_ascii_case(a: &[char], b: &[char]) -> (res: bool)
    ensures
        res == eq_ignoring_ascii_case(a@, b@),
{
    if a.len() != b.len() {
        return false;
    }
    let n = a.len();
    for i in 0..n
        invariant
            n == a@.len(),
            n == b@.len(),
            forall|j: int| 0 <= j < i ==> ascii_lower(a@[j]) == ascii_lower(b@[j]),
    {
        if to_ascii_lower(a[i]) != to_ascii_lower(b[i]) {
            return false;
        }
    }
    true
}

/// What `str::to_uppercase` returns: the Unicode upper-case mapping.
pub uninterp spec fn unicode_uppercase(s: Seq<char>) -> Seq<char>;

/// `str::to_uppercase`: the result is the named Unicode upper-case mapping.
#[verifier::external_body]
fn to_uppercase(s: &str) -> (res: String)
    ensures
        res@ == unicode_uppercase(s@),
{
    s.to_uppercase()
}

/// The upper-case form of `s` as `str::to_uppercase` gives it: on all-ASCII
/// text, `a`..=`z` become `A`..=`Z` and nothing else changes; otherwise the
/// Unicode mapping.
pub open spec fn uppercased(s: Seq<char>) -> Seq<char> {
    if all_ascii(s) {
        s.map_values(|c: char| ascii_upper(c))
    } else {
        unicode_uppercase(s)
    }
}

fn to_ascii_upper(c: char) -> (res: char)
    ensures
        res == ascii_upper(c),
{
    if 'a' <= c && c <= 'z' {
        let code: u32 = c as u32;
        let raised: u8 = (code - 32) as u8;
        raised as char
    } else {
        c
    }
}

/// Upper-cases a character sequence, as `str::to_uppercase` does.
pub fn uppercase_chars(s: &[char]) -> (res: Vec<char>)
    ensures
        res@ == uppercased(s@),
{
    let n = s.len();
    let mut ascii = true;
    for i in 0..n
        invariant
            n == s@.len(),
            ascii == (forall|j: int| 0 <= j < i ==> (s@[j] as u32) < 128),
    {
        if (s[i] as u32) >= 128 {
            ascii = false;
        }
    }
    if ascii {
        let mut out: Vec<char> = Vec::new();
        for i in 0..n
            invariant
                n == s@.len(),
                out@ == s@.take(i as int).map_values(|c: char| ascii_upper(c)),
        {
            out.push(to_ascii_upper(s[i]));
            assert(s@.take(i + 1).map_values(|c: char| ascii_upper(c)) =~= s@.take(i as int).map_values(
                |c: char| ascii_upper(c),
            ).push(ascii_upper(s@[i as int])));
        }
        assert(s@.take(n as int) == s@);
        out
    } else {
        let text = string_of(s);
        let upper = to_uppercase(text.as_str());
        chars_of(upper.as_str())
    }
}

// ---------------------------------------------------------------------------
// Decimal numbers
// ---------------------------------------------------------------------------

/// The ASCII digit for `d` (0..=9).
pub open spec fn digit_char(d: int) -> char {
    (d + 48) as char
}

/// An ASCII digit.
pub open spec fn is_digit(c: char) -> bool {
    '0' <= c && c <= '9'
}

/// The value of an ASCII digit.
pub open spec fn digit_value(c: char) -> int {
    c as int - 48
}

/// The decimal representation of `n`, without leading zeros.
pub open spec fn decimal(n: nat) -> Seq<char>
    decreases n,
{
    if n < 10 {
        seq![digit_char(n as int)]
    } else {
        decimal(n / 10).push(digit_char((n % 10) as int))
    }
}

/// `s` padded on the left with `'0'` to at least `width` characters.
pub open spec fn zero_padded(s: Seq<char>, width: nat) -> Seq<char> {
    if s.len() < width {
        Seq::new((width - s.len()) as nat, |i: int| '0') + s
    } else {
        s
    }
}

/// The decimal representation of `n` padded to `width` digits.
pub open spec fn padded_decimal(n: nat, width: nat) -> Seq<char> {
    zero_padded(decimal(n), width)
}

/// Every character of `s` is an ASCII digit.
pub open spec fn all_digits(s: Seq<char>) -> bool {
    forall|i: int| 0 <= i < s.len() ==> is_digit(s[i])
}

/// The value of a string of decimal digits.
pub open spec fn digits_value(s: Seq<char>) -> int
    decreases s.len(),
{
    if s.len() == 0 {
        0
    } else {
        digits_value(s.drop_last()) * 10 + digit_value(s.last())
    }
}

/// The digits after an optional leading `+`.
pub open spec fn unsigned_part(s: Seq<char>) -> Seq<char> {
    if s.len() > 0 && s[0] == '+' {
        s.drop_first()
    } else {
        s
    }
}

/// What `u64::from_str` gives: an optional `+`, then at least one ASCII digit,
/// and a value that fits in 64 bits.
pub open spec fn parse_u64(s: Seq<char>) -> Option<u64> {
    let d = unsigned_part(s);
    if d.len() > 0 && all_digits(d) && digits_value(d) <= u64::MAX {
        Some(digits_value(d) as u64)
    } else {
        None
    }
}

/// The decimal digits of `n`.
pub fn decimal_chars(n: u64) -> (res: Vec<char>)
    ensures
        res@ == decimal(n as nat),
    decreases n,
{
    if n < 10 {
        let d: u8 = n as u8;
        let mut v: Vec<char> = Vec::new();
        v.push((d + 48) as char);
        v
    } else {
        let mut v = decimal_chars(n / 10);
        let d: u8 = (n % 10) as u8;
        v.push((d + 48) as char);
        v
    }
}

/// The decimal digits of `n`, padded with `'0'` to at least `width` characters.
pub fn padded_decimal_chars(n: u64, width: usize) -> (res: Vec<char>)
    ensures
        res@ == padded_decimal(n as nat, width as nat),
{
    let digits = decimal_chars(n);
    if digits.len() < width {
        let mut res: Vec<char> = Vec::new();
        let pad = width - digits.len();
        for i in 0..pad
            invariant
                res@ == Seq::new(i as nat, |k: int| '0'),
        {
            res.push('0');
            assert(res@ == Seq::new((i + 1) as nat, |k: int| '0'));
        }
        append_chars(&mut res, digits.as_slice());
        res
    } else {
        digits
    }
}

/// The decimal representation of `n` as a `String`.
pub fn u64_to_string(n: u64) -> (res: String)
    ensures
        res@ == decimal(n as nat),
{
    let digits = decimal_chars(n);
    string_of(digits.as_slice())
}

proof fn lemma_digits_value_nonneg(s: Seq<char>)
    requires
        all_digits(s),
    ensures
        digits_value(s) >= 0,
    decreases s.len(),
{
    if s.len() > 0 {
        lemma_digits_value_nonneg(s.drop_last());
    }
}

proof fn lemma_digits_value_prefix(s: Seq<char>, j: int)
    requires
        all_digits(s),
        0 <= j <= s.len(),
    ensures
        0 <= digits_value(s.take(j)) <= digits_value(s),
    decreases s.len(),
{
    if j == s.len() {
        assert(s.take(j) == s);
        lemma_digits_value_nonneg(s);
    } else {
        lemma_digits_value_prefix(s.drop_last(), j);
        assert(s.drop_last().take(j) == s.take(j));
        lemma_digits_value_nonneg(s.drop_last());
    }
}

/// Parses a decimal `u64` exactly as `u64::from_str` does.
pub fn parse_u64_chars(s: &[char]) -> (res: Option<u64>)
    ensures
        res == parse_u64(s@),
{
    let n = s.len();
    let start: usize = if n > 0 && s[0] == '+' {
        1
    } else {
        0
    };
    let ghost d = unsigned_part(s@);
    assert(d == s@.subrange(start as int, n as int));
    if start == n {
        return None;
    }
    let mut value: u64 = 0;
    let mut i = start;
    while i < n
        invariant
            start <= i <= n == s@.len(),
            d == s@.subrange(start as int, n as int),
            d == unsigned_part(s@),
            all_digits(d.take(i - start)),
            value as int == digits_value(d.take(i - start)),
        decreases n - i,
    {
        let c = s[i];
        let ghost k = i - start;
        assert(d[k] == s@[i as int]);
        if !('0' <= c && c <= '9') {
            assert(!is_digit(d[k]));

            return None;
        }
        assert(d.take(k + 1).drop_last() == d.take(k));
        assert(d.take(k + 1).last() == c);
        assert(all_digits(d.take(k + 1)));
        let code: u32 = c as u32;
        let dv: u64 = (code - 48) as u64;
        assert(digits_value(d.take(k + 1)) == value * 10 + dv);
        match value.checked_mul(10) {
            None => {
                proof {
                    if all_digits(d) {
                        lemma_digits_value_prefix(d, k + 1);
                        lemma_digits_value_nonneg(d.take(k));
                    }
                }
                return None;
            },
            Some(v10) => {
                match v10.checked_add(dv) {
                    None => {
                        proof {
                            if all_digits(d) {
                                lemma_digits_value_prefix(d, k + 1);
                            }
                        }
                        return None;
                    },
                    Some(v) => {
                        value = v;
                    },
                }
            },
        }
        i += 1;
    }
    assert(d.take(n - start) == d);
    Some(value)
}

/// The decimal representation of `n` is a non-empty run of digits, without
/// a sign, whose value is `n`.
pub proof fn lemma_decimal_facts(n: nat)
    ensures
        decimal(n).len() > 0,
        all_digits(decimal(n)),
        digits_value(decimal(n)) == n,
        decimal(n)[0] != '+',
    decreases n,
{
    let s = decimal(n);
    if n >= 10 {
        lemma_decimal_facts(n / 10);
        assert(s.drop_last() == decimal(n / 10));
        assert(s[0] == decimal(n / 10)[0]);
        assert(digit_value(s.last()) == n % 10);
        assert(n == (n / 10) * 10 + n % 10);
    } else {
        assert(s.drop_last() =~= Seq::<char>::empty());
        assert(digits_value(Seq::<char>::empty()) == 0);
        assert(digit_value(s.last()) == n);
    }
}

/// Parsing the decimal representation of a `u64` gives it back.
pub proof fn lemma_parse_decimal(n: u64)
    ensures
        parse_u64(decimal(n as nat)) == Some(n),
{
    lemma_decimal_facts(n as nat);
}

// ---------------------------------------------------------------------------
// Field splitting
// ---------------------------------------------------------------------------

/// The index of the first `c` in `s`, or `s.len()` when there is none.
pub open spec fn find_char(s: Seq<char>, c: char) -> int
    decreases s.len(),
{
    if s.len() == 0 {
        0
    } else if s[0] == c {
        0
    } else {
        1 + find_char(s.drop_first(), c)
    }
}

/// `find_char` is the first occurrence.
pub proof fn lemma_find_char(s: Seq<char>, c: char)
    ensures
        0 <= find_char(s, c) <= s.len(),
        forall|j: int| 0 <= j < find_char(s, c) ==> s[j] != c,
        find_char(s, c) < s.len() ==> s[find_char(s, c)] == c,
    decreases s.len(),
{
    if s.len() > 0 && s[0] != c {
        lemma_find_char(s.drop_first(), c);
        assert forall|j: int| 0 <= j < find_char(s, c) implies s[j] != c by {
            if j > 0 {
                assert(s[j] == s.drop_first()[j - 1]);
            }
        }
    }
}

/// `str::splitn(n, sep)` for `n >= 1`: the text before each of the first
/// `n - 1` separators, then the rest.
#[verifier::opaque]
pub open spec fn split_fields(s: Seq<char>, sep: char, n: nat) -> Seq<Seq<char>>
    decreases n,
{
    if n <= 1 {
        seq![s]
    } else {
        let k = find_char(s, sep);
        if k == s.len() {
            seq![s]
        } else {
            seq![s.take(k)] + split_fields(s.skip(k + 1), sep, (n - 1) as nat)
        }
    }
}

/// The views of a vector of character vectors.
pub open spec fn fields_view(v: Seq<Vec<char>>) -> Seq<Seq<char>> {
    v.map_values(|f: Vec<char>| f@)
}

/// Splits `s` at the first `n - 1` occurrences of `sep`.
pub fn split_n(s: &[char], sep: char, n: usize) -> (res: Vec<Vec<char>>)
    requires
        n >= 1,
    ensures
        fields_view(res@) == split_fields(s@, sep, n as nat),
{
    let mut fields: Vec<Vec<char>> = Vec::new();
    let mut start: usize = 0;
    let len = s.len();
    assert(s@.skip(0) == s@);
    loop
        invariant_except_break
            start <= len == s@.len(),
            fields@.len() < n,
            fields_view(fields@) + split_fields(s@.skip(start as int), sep, (n - fields@.len()) as nat)
                == split_fields(s@, sep, n as nat),
        ensures
            fields_view(fields@) == split_fields(s@, sep, n as nat),
        decreases len - start + (n - fields@.len()),
    {
        let ghost rest = s@.skip(start as int);
        let ghost m = (n - fields@.len()) as nat;
        proof {
            reveal(split_fields);
        }
        if fields.len() + 1 >= n {
            assert(split_fields(rest, sep, m) == seq![rest]);
            let last = copy_range(s, start, len);
            assert(last@ == rest);
            let ghost before = fields@;
            fields.push(last);
            assert(fields_view(fields@) == fields_view(before).push(rest));
            break;
        }
        let mut i = start;
        while i < len && s[i] != sep
            invariant
                start <= i <= len == s@.len(),
                forall|j: int| start <= j < i ==> s@[j] != sep,
            decreases len - i,
        {
            i += 1;
        }
        proof {
            lemma_find_char(rest, sep);
            assert forall|j: int| 0 <= j < i - start implies rest[j] != sep by {
                assert(rest[j] == s@[start + j]);
            }
            if i < len {
                assert(rest[i - start] == sep);
            }
            assert(find_char(rest, sep) == i - start);
        }
        let piece = copy_range(s, start, i);
        if i == len {
            assert(split_fields(rest, sep, m) == seq![rest]);
            assert(piece@ == rest);
            let ghost before = fields@;
            fields.push(piece);
            assert(fields_view(fields@) == fields_view(before).push(rest));
            break;
        }
        assert(piece@ == rest.take(i - start));
        assert(rest.skip(i - start + 1) == s@.skip(i + 1));
        let ghost before = fields@;
        fields.push(piece);
        assert(fields_view(fields@) == fields_view(before).push(rest.take(i - start)));
        start = i + 1;
    }
    fields
}

// ---------------------------------------------------------------------------
// Facts about these operations
// ---------------------------------------------------------------------------

/// `s` holds no `c`.
pub open spec fn lacks(s: Seq<char>, c: char) -> bool {
    forall|i: int| 0 <= i < s.len() ==> s[i] != c
}

/// `s` holds no white space.
pub open spec fn lacks_white_space(s: Seq<char>) -> bool {
    forall|i: int| 0 <= i < s.len() ==> !is_white_space(s[i])
}

/// Trimming text without white space changes nothing.
pub proof fn lemma_trim_no_white_space(s: Seq<char>)
    requires
        lacks_white_space(s),
    ensures
        trim(s) == s,
{
    if s.len() > 0 {
        assert(!is_white_space(s[0]));
        assert(!is_white_space(s[s.len() - 1]));
    }
}

/// Filtering keeps a sequence whose elements all pass.
pub proof fn lemma_filter_keeps_all(s: Seq<char>, p: spec_fn(char) -> bool)
    requires
        forall|i: int| 0 <= i < s.len() ==> p(s[i]),
    ensures
        s.filter(p) == s,
    decreases s.len(),
{
    reveal_with_fuel(Seq::<_>::filter, 1);
    if s.len() > 0 {
        lemma_filter_keeps_all(s.drop_last(), p);
        assert(s.drop_last().push(s.last()) == s);
    }
}

/// Filtering cannot bring in a character that was absent.
pub proof fn lemma_filter_lacks(s: Seq<char>, p: spec_fn(char) -> bool, c: char)
    requires
        lacks(s, c),
    ensures
        lacks(s.filter(p), c),
    decreases s.len(),
{
    reveal_with_fuel(Seq::<_>::filter, 1);
    if s.len() > 0 {
        lemma_filter_lacks(s.drop_last(), p, c);
    }
}

/// The fields joined back with the separator.
pub open spec fn joined(fields: Seq<Seq<char>>, sep: char) -> Seq<char>
    decreases fields.len(),
{
    if fields.len() == 0 {
        Seq::empty()
    } else if fields.len() == 1 {
        fields[0]
    } else {
        fields[0] + seq![sep] + joined(fields.drop_first(), sep)
    }
}

/// Five fields joined with the separator.
pub open spec fn join5(a: Seq<char>, b: Seq<char>, c: Seq<char>, d: Seq<char>, e: Seq<char>, sep: char) -> Seq<char> {
    a + seq![sep] + b + seq![sep] + c + seq![sep] + d + seq![sep] + e
}

/// Splitting at most `n` fields loses nothing: joining the fields gives the
/// text back, and every field but the last holds no separator.
pub proof fn lemma_split_fields_join(s: Seq<char>, sep: char, n: nat)
    ensures
        split_fields(s, sep, n).len() >= 1,
        joined(split_fields(s, sep, n), sep) == s,
        forall|i: int|
            0 <= i < split_fields(s, sep, n).len() - 1 ==> lacks(
                #[trigger] split_fields(s, sep, n)[i],
                sep,
            ),
    decreases n,
{
    reveal(split_fields);
    if n > 1 {
        let k = find_char(s, sep);
        lemma_find_char(s, sep);
        if k < s.len() {
            let rest = s.skip(k + 1);
            lemma_split_fields_join(rest, sep, (n - 1) as nat);
            let fs = split_fields(s, sep, n);
            let tail = split_fields(rest, sep, (n - 1) as nat);
            assert(fs == seq![s.take(k)] + tail);
            assert(fs.drop_first() == tail);
            assert(fs[0] == s.take(k));
            assert(s == s.take(k) + seq![sep] + rest);
            assert forall|i: int| 0 <= i < fs.len() - 1 implies lacks(#[trigger] fs[i], sep) by {
                if i > 0 {
                    assert(fs[i] == tail[i - 1]);
                }
            }
        }
    }
}

/// Splitting text built from fields, the first ones free of the separator,
/// gives the first field and the split of the rest.
pub proof fn lemma_split_step(x: Seq<char>, rest: Seq<char>, sep: char, n: nat)
    requires
        lacks(x, sep),
        n >= 2,
    ensures
        split_fields(x + seq![sep] + rest, sep, n) == seq![x] + split_fields(rest, sep, (n - 1) as nat),
{
    reveal(split_fields);
    let s = x + seq![sep] + rest;
    lemma_find_char(s, sep);
    let k = find_char(s, sep);
    assert(s[x.len() as int] == sep);
    if k < x.len() {
        assert(s[k] == x[k]);
    }
    assert(k == x.len());
    assert(s.take(k) == x);
    assert(s.skip(k + 1) == rest);
}

/// Five fields, the first four free of the separator, split back into the
/// same five fields.
pub proof fn lemma_split_join5(a: Seq<char>, b: Seq<char>, c: Seq<char>, d: Seq<char>, e: Seq<char>, sep: char)
    requires
        lacks(a, sep),
        lacks(b, sep),
        lacks(c, sep),
        lacks(d, sep),
    ensures
        split_fields(join5(a, b, c, d, e, sep), sep, 5) == seq![a, b, c, d, e],
{
    let t4 = d + seq![sep] + e;
    let t3 = c + seq![sep] + t4;
    let t2 = b + seq![sep] + t3;
    let t1 = a + seq![sep] + t2;
    assert(join5(a, b, c, d, e, sep) == t1);
    lemma_split_step(a, t2, sep, 5);
    lemma_split_step(b, t3, sep, 4);
    lemma_split_step(c, t4, sep, 3);
    lemma_split_step(d, e, sep, 2);
    assert(split_fields(e, sep, 1) == seq![e]) by {
        reveal(split_fields);
    }
    assert(seq![a] + (seq![b] + (seq![c] + (seq![d] + seq![e]))) == seq![a, b, c, d, e]);
}

/// Text that splits into five fields is those fields joined, the first four
/// free of the separator.
pub proof fn lemma_split5_parts(s: Seq<char>, sep: char)
    requires
        split_fields(s, sep, 5).len() == 5,
    ensures
        ({
            let p = split_fields(s, sep, 5);
            &&& s == join5(p[0], p[1], p[2], p[3], p[4], sep)
            &&& lacks(p[0], sep)
            &&& lacks(p[1], sep)
            &&& lacks(p[2], sep)
            &&& lacks(p[3], sep)
        }),
{
    let p = split_fields(s, sep, 5);
    lemma_split_fields_join(s, sep, 5);
    assert(lacks(p[0], sep));
    assert(lacks(p[1], sep));
    assert(lacks(p[2], sep));
    assert(lacks(p[3], sep));
    let q1 = p.drop_first();
    let q2 = q1.drop_first();
    let q3 = q2.drop_first();
    assert(joined(q3, sep) == p[3] + seq![sep] + joined(q3.drop_first(), sep));
    assert(q3.drop_first().len() == 1);
    assert(joined(q3.drop_first(), sep) == p[4]);
    assert(joined(q2, sep) == p[2] + seq![sep] + joined(q3, sep));
    assert(joined(q1, sep) == p[1] + seq![sep] + joined(q2, sep));
    assert(joined(p, sep) == p[0] + seq![sep] + joined(q1, sep));
    assert(s == join5(p[0], p[1], p[2], p[3], p[4], sep));
}

} // verus!
