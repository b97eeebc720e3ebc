//! Byte-level text primitives.
//!
//! Every textual input of the gateway (selectors, colour expressions, numeric
//! tokens) is analysed as its UTF-8 encoding.  The keywords of the grammars
//! are plain ASCII, and substring search on UTF-8 bytes coincides with
//! substring search on characters, so the byte model loses nothing.

use vstd::prelude::*;
use vstd::slice::slice_subrange;
use vstd::string::StringExecFns;
use vstd::string::StringSliceAdditionalSpecFns;

verus! {

/// The UTF-8 encoding of a character sequence: the model of a string in the
/// contracts of this crate.
pub open spec fn utf8(s: Seq<char>) -> Seq<u8> {
    vstd::utf8::encode_utf8(s)
}

/// `p` occurs in `s` starting at position `i`.
pub open spec fn occurs_at(s: Seq<u8>, p: Seq<u8>, i: int) -> bool {
    &&& 0 <= i
    &&& i + p.len() <= s.len()
    &&& s.subrange(i, i + p.len()) == p
}

/// `p` occurs somewhere in `s` as a contiguous block.
pub open spec fn contains_seq(s: Seq<u8>, p: Seq<u8>) -> bool {
    exists|i: int| occurs_at(s, p, i)
}

/// What is left of `s` once its first `n` bytes are removed.
pub open spec fn after(s: Seq<u8>, n: nat) -> Seq<u8> {
    s.subrange(n as int, s.len() as int)
}

/// Equality of two byte strings.
pub fn bytes_eq(a: &[u8], b: &[u8]) -> (r: bool)
    ensures
        r == (a@ == b@),
{
    if a.len() != b.len() {
        return false;
    }
    let mut i: usize = 0;
    while i < a.len()
        invariant
            a.len() == b.len(),
            i <= a.len(),
            forall|k: int| 0 <= k < i ==> a@[k] == b@[k],
        decreases a.len() - i,
    {
        if a[i] != b[i] {
            return false;
        }
        i += 1;
    }
    assert(a@ =~= b@);
    true
}

/// Does `s` begin with `p`?
pub fn starts_with(s: &[u8], p: &[u8]) -> (r: bool)
    ensures
        r == p@.is_prefix_of(s@),
{
    if p.len() > s.len() {
        return false;
    }
    let head = slice_subrange(s, 0, p.len());
    bytes_eq(head, p)
}

/// Does `p` occur at position `i` of `s`?
fn matches_at(s: &[u8], p: &[u8], i: usize) -> (r: bool)
    requires
        i + p.len() <= s.len(),
    ensures
        r == occurs_at(s@, p@, i as int),
{
    let window = slice_subrange(s, i, i + p.len());
    bytes_eq(window, p)
}

/// Substring search: does `p` occur anywhere in `s`?  The empty pattern
/// occurs in every string.
pub fn contains(s: &[u8], p: &[u8]) -> (r: bool)
    ensures
        r == contains_seq(s@, p@),
{
    if p.len() > s.len() {
        assert(!contains_seq(s@, p@)) by {
            assert forall|i: int| !occurs_at(s@, p@, i) by {}
        }
        return false;
    }
    let last: usize = s.len() - p.len();
    let mut i: usize = 0;
    while i < last
        invariant
            last == s.len() - p.len(),
            i <= last,
            forall|k: int| 0 <= k < i ==> !occurs_at(s@, p@, k),
        decreases last - i,
    {
        if matches_at(s, p, i) {
            return true;
        }
        i += 1;
    }
    if matches_at(s, p, last) {
        return true;
    }
    assert(!contains_seq(s@, p@)) by {
        assert forall|k: int| !occurs_at(s@, p@, k) by {}
    }
    false
}

/// The bytes of `s` from position `n` on.
pub fn skip(s: &[u8], n: usize) -> (r: &[u8])
    requires
        n <= s.len(),
    ensures
        r@ == after(s@, n as nat),
{
    slice_subrange(s, n, s.len())
}


/// An ASCII decimal digit.
pub open spec fn is_digit(b: u8) -> bool {
    48 <= b <= 57
}

/// Every byte of `s` is a decimal digit.
pub open spec fn all_digits(s: Seq<u8>) -> bool {
    forall|i: int| 0 <= i < s.len() ==> is_digit(#[trigger] s[i])
}

/// The number that a sequence of decimal digits denotes, most significant
/// digit first.  The empty sequence denotes zero.
pub open spec fn digits_value(s: Seq<u8>) -> nat
    decreases s.len(),
{
    if s.len() == 0 {
        0
    } else {
        digits_value(s.drop_last()) * 10 + (s.last() - 48) as nat
    }
}

/// Reading more digits never gives a smaller number.
pub proof fn lemma_digits_prefix_le(s: Seq<u8>, n: int)
    requires
        all_digits(s),
        0 <= n <= s.len(),
    ensures
        digits_value(s.subrange(0, n)) <= digits_value(s),
    decreases s.len() - n,
{
    if n == s.len() {
        assert(s.subrange(0, n) =~= s);
    } else {
        lemma_digits_prefix_le(s, n + 1);
        let longer = s.subrange(0, n + 1);
        assert(longer.drop_last() =~= s.subrange(0, n));
        assert(is_digit(s[n]));
        assert(longer.last() == s[n]);
    }
}

/// The value of a run of digits, if it is not empty, holds digits only and
/// does not exceed `max`.
pub open spec fn bounded_digits(s: Seq<u8>, max: nat) -> Option<nat> {
    if s.len() > 0 && all_digits(s) && digits_value(s) <= max {
        Some(digits_value(s))
    } else {
        None
    }
}

/// Reads a run of decimal digits as a number no greater than `limit`.
pub fn parse_digits(s: &[u8], limit: u64) -> (r: Option<u64>)
    ensures
        match bounded_digits(s@, limit as nat) {
            Some(v) => r == Some(v as u64),
            None => r.is_none(),
        },
{
    if s.len() == 0 {
        return None;
    }
    let mut acc: u64 = 0;
    let mut i: usize = 0;
    while i < s.len()
        invariant
            i <= s.len(),
            acc <= limit,
            all_digits(s@.subrange(0, i as int)),
            acc == digits_value(s@.subrange(0, i as int)),
        decreases s.len() - i,
    {
        let b = s[i];
        if b < 48 || b > 57 {
            assert(!all_digits(s@)) by {
                assert(!is_digit(s@[i as int]));
            }
            return None;
        }
        let d: u64 = (b - 48) as u64;
        let ghost longer = s@.subrange(0, i + 1);
        proof {
            assert(longer.drop_last() =~= s@.subrange(0, i as int));
            assert(longer.last() == b);
            assert(all_digits(longer)) by {
                assert forall|k: int| 0 <= k < longer.len() implies is_digit(
                    #[trigger] longer[k],
                ) by {
                    if k < i {
                        assert(longer[k] == s@.subrange(0, i as int)[k]);
                    }
                }
            }
            assert(digits_value(longer) == acc * 10 + d);
        }
        if limit < d || acc > (limit - d) / 10 {
            proof {
                assert(digits_value(longer) > limit);
                if all_digits(s@) {
                    lemma_digits_prefix_le(s@, i + 1);
                }
            }
            return None;
        }
        acc = acc * 10 + d;
        i += 1;
    }
    assert(s@.subrange(0, i as int) =~= s@);
    Some(acc)
}

/// The number written by an optional `+` and a run of digits, as the
/// standard unsigned integer syntax has it.
pub open spec fn unsigned_text_value(s: Seq<u8>, max: nat) -> Option<nat> {
    if s.len() > 0 && s[0] == 43 {
        bounded_digits(s.drop_first(), max)
    } else {
        bounded_digits(s, max)
    }
}

/// Reads an unsigned decimal number no greater than `limit`.
pub fn parse_unsigned(s: &[u8], limit: u64) -> (r: Option<u64>)
    ensures
        match unsigned_text_value(s@, limit as nat) {
            Some(v) => r == Some(v as u64),
            None => r.is_none(),
        },
{
    if s.len() > 0 && s[0] == 43 {
        let body = slice_subrange(s, 1, s.len());
        assert(body@ =~= s@.drop_first());
        parse_digits(body, limit)
    } else {
        parse_digits(s, limit)
    }
}

/// The number written by an optional sign and a run of digits, if it fits
/// in sixty-four signed bits.
pub open spec fn signed_text_value(s: Seq<u8>) -> Option<int> {
    if s.len() > 0 && s[0] == 45 {
        match bounded_digits(s.drop_first(), 0x8000_0000_0000_0000) {
            Some(v) => Some(-(v as int)),
            None => None,
        }
    } else {
        match unsigned_text_value(s, 0x7fff_ffff_ffff_ffff) {
            Some(v) => Some(v as int),
            None => None,
        }
    }
}

/// Reads a signed decimal number.
pub fn parse_signed(s: &[u8]) -> (r: Option<i64>)
    ensures
        match signed_text_value(s@) {
            Some(v) => r == Some(v as i64),
            None => r.is_none(),
        },
{
    if s.len() > 0 && s[0] == 45 {
        let body = slice_subrange(s, 1, s.len());
        assert(body@ =~= s@.drop_first());
        match parse_digits(body, 0x8000_0000_0000_0000) {
            Some(v) => {
                if v == 0x8000_0000_0000_0000 {
                    Some(i64::MIN)
                } else {
                    Some(0 - (v as i64))
                }
            },
            None => None,
        }
    } else {
        match parse_unsigned(s, 0x7fff_ffff_ffff_ffff) {
            Some(v) => Some(v as i64),
            None => None,
        }
    }
}


/// The character that shows the decimal digit `d`.
pub open spec fn digit_char(d: nat) -> char {
    if d == 0 {
        '0'
    } else if d == 1 {
        '1'
    } else if d == 2 {
        '2'
    } else if d == 3 {
        '3'
    } else if d == 4 {
        '4'
    } else if d == 5 {
        '5'
    } else if d == 6 {
        '6'
    } else if d == 7 {
        '7'
    } else if d == 8 {
        '8'
    } else {
        '9'
    }
}

/// The decimal notation of `n`, without leading zeros.
pub open spec fn decimal_chars(n: nat) -> Seq<char>
    decreases n,
{
    if n < 10 {
        seq![digit_char(n)]
    } else {
        decimal_chars(n / 10).push(digit_char(n % 10))
    }
}

/// The text of one decimal digit.
pub fn digit_text(d: u64) -> (r: &'static str)
    requires
        d < 10,
    ensures
        r@ == seq![digit_char(d as nat)],
{
    proof {
        reveal_strlit("0");
        reveal_strlit("1");
        reveal_strlit("2");
        reveal_strlit("3");
        reveal_strlit("4");
        reveal_strlit("5");
        reveal_strlit("6");
        reveal_strlit("7");
        reveal_strlit("8");
        reveal_strlit("9");
    }
    let r = if d == 0 {
        "0"
    } else if d == 1 {
        "1"
    } else if d == 2 {
        "2"
    } else if d == 3 {
        "3"
    } else if d == 4 {
        "4"
    } else if d == 5 {
        "5"
    } else if d == 6 {
        "6"
    } else if d == 7 {
        "7"
    } else if d == 8 {
        "8"
    } else {
        "9"
    };
    assert(r@ =~= seq![digit_char(d as nat)]);
    r
}

/// Appends the decimal notation of `n` to `out`.
pub fn push_decimal(out: &mut String, n: u64)
    ensures
        final(out)@ == old(out)@ + decimal_chars(n as nat),
    decreases n,
{
    if n >= 10 {
        push_decimal(out, n / 10);
    }
    out.append(digit_text(n % 10));
    proof {
        if n >= 10 {
            assert(final(out)@ =~= old(out)@ + decimal_chars(n as nat));
        } else {
            assert(final(out)@ =~= old(out)@ + decimal_chars(n as nat));
        }
    }
}

/// The concatenation of two texts.
pub fn join(a: &str, b: &str) -> (r: String)
    ensures
        r@ == a@ + b@,
{
    let mut out = String::from_str(a);
    out.append(b);
    out
}

/// Reads a sixteen-bit unsigned number; the error names the rejected text.
pub fn parse_u16_safe(value: &str) -> (r: Result<u16, String>)
    ensures
        match unsigned_text_value(utf8(value@), 65535) {
            Some(v) => r == Ok::<u16, String>(v as u16),
            None => r.is_err() && r->Err_0@ == "Invalid u16 value: "@ + value@,
        },
{
    match parse_unsigned(value.as_bytes(), 65535) {
        Some(v) => Ok(v as u16),
        None => Err(join("Invalid u16 value: ", value)),
    }
}

/// Reads a sixty-four-bit signed number; the error names the rejected text.
pub fn parse_i64_safe(value: &str) -> (r: Result<i64, String>)
    ensures
        match signed_text_value(utf8(value@)) {
            Some(v) => r == Ok::<i64, String>(v as i64),
            None => r.is_err() && r->Err_0@ == "Invalid i64 value: "@ + value@,
        },
{
    match parse_signed(value.as_bytes()) {
        Some(v) => Ok(v),
        None => Err(join("Invalid i64 value: ", value)),
    }
}


/// The position of the first `b` in `s`, or the length of `s` if there is
/// none.
pub open spec fn index_of_byte(s: Seq<u8>, b: u8) -> int
    decreases s.len(),
{
    if s.len() == 0 || s[0] == b {
        0
    } else {
        1 + index_of_byte(s.drop_first(), b)
    }
}

/// `index_of_byte` lies within the sequence, points at `b` when it is
/// inside, and nothing before it is `b`.
pub proof fn lemma_index_of_byte(s: Seq<u8>, b: u8)
    ensures
        0 <= index_of_byte(s, b) <= s.len(),
        index_of_byte(s, b) < s.len() ==> s[index_of_byte(s, b)] == b,
        forall|k: int| 0 <= k < index_of_byte(s, b) ==> s[k] != b,
    decreases s.len(),
{
    if s.len() == 0 || s[0] == b {
    } else {
        let rest = s.drop_first();
        lemma_index_of_byte(rest, b);
        assert forall|k: int| 0 <= k < index_of_byte(s, b) implies s[k] != b by {
            if k > 0 {
                assert(s[k] == rest[k - 1]);
            }
        }
    }
}

/// A position that points at the first `b`, or past the end where there is
/// none, is `index_of_byte`.
pub proof fn lemma_index_of_byte_unique(s: Seq<u8>, b: u8, i: int)
    requires
        0 <= i <= s.len(),
        forall|k: int| 0 <= k < i ==> s[k] != b,
        i < s.len() ==> s[i] == b,
    ensures
        index_of_byte(s, b) == i,
{
    lemma_index_of_byte(s, b);
    let j = index_of_byte(s, b);
    if j < i {
        assert(s[j] == b);
    } else if j > i {
        assert(s[i] != b);
    }
}

/// Finds the first `b` in `s`.
pub fn find_byte(s: &[u8], b: u8) -> (r: usize)
    ensures
        r == index_of_byte(s@, b),
        r <= s.len(),
{
    let mut i: usize = 0;
    while i < s.len()
        invariant
            i <= s.len(),
            forall|k: int| 0 <= k < i ==> s@[k] != b,
        decreases s.len() - i,
    {
        if s[i] == b {
            proof {
                lemma_index_of_byte_unique(s@, b, i as int);
            }
            return i;
        }
        i += 1;
    }
    proof {
        lemma_index_of_byte_unique(s@, b, i as int);
    }
    i
}

/// Does `s` hold decimal digits only?
pub fn is_all_digits(s: &[u8]) -> (r: bool)
    ensures
        r == all_digits(s@),
{
    let mut i: usize = 0;
    while i < s.len()
        invariant
            i <= s.len(),
            forall|k: int| 0 <= k < i ==> is_digit(#[trigger] s@[k]),
        decreases s.len() - i,
    {
        if s[i] < 48 || s[i] > 57 {
            assert(!is_digit(s@[i as int]));
            return false;
        }
        i += 1;
    }
    true
}


/// Does the byte string `s` begin with the text `p`?
pub open spec fn has_prefix(s: Seq<u8>, p: Seq<char>) -> bool {
    utf8(p).is_prefix_of(s)
}

/// The byte string `s` without its first `|p|` bytes.
pub open spec fn strip(s: Seq<u8>, p: Seq<char>) -> Seq<u8> {
    after(s, utf8(p).len())
}

/// Is the byte string `s` exactly the text `p`?
pub open spec fn is_text(s: Seq<u8>, p: Seq<char>) -> bool {
    s == utf8(p)
}

/// Removes the prefix `p` from `s`, if `s` begins with it.
pub fn strip_prefix<'a>(s: &'a [u8], p: &str) -> (r: Option<&'a [u8]>)
    ensures
        has_prefix(s@, p@) ==> r.is_some() && r.unwrap()@ == strip(s@, p@),
        !has_prefix(s@, p@) ==> r.is_none(),
{
    let pb: &[u8] = p.as_bytes();
    if starts_with(s, pb) {
        Some(skip(s, pb.len()))
    } else {
        None
    }
}

/// Is `s` exactly the text `p`?
pub fn equals_text(s: &[u8], p: &str) -> (r: bool)
    ensures
        r == is_text(s@, p@),
{
    bytes_eq(s, p.as_bytes())
}

/// ASCII white space: the space and the control characters from tab to
/// carriage return.
pub open spec fn is_space(b: u8) -> bool {
    b == 32 || (9 <= b <= 13)
}

/// The length of the run of bytes at the head of `s` that are not white
/// space.
pub open spec fn word_len(s: Seq<u8>) -> int
    decreases s.len(),
{
    if s.len() == 0 || is_space(s[0]) {
        0
    } else {
        1 + word_len(s.drop_first())
    }
}

/// A position at which the leading run without white space ends is
/// `word_len`.
pub proof fn lemma_word_len_unique(s: Seq<u8>, n: int)
    requires
        0 <= n <= s.len(),
        forall|k: int| 0 <= k < n ==> !is_space(#[trigger] s[k]),
        n < s.len() ==> is_space(s[n]),
    ensures
        word_len(s) == n,
    decreases s.len(),
{
    if s.len() == 0 || is_space(s[0]) {
        if n > 0 {
            assert(!is_space(s[0]));
        }
    } else {
        let rest = s.drop_first();
        assert(n > 0);
        assert forall|k: int| 0 <= k < n - 1 implies !is_space(#[trigger] rest[k]) by {
            assert(rest[k] == s[k + 1]);
        }
        lemma_word_len_unique(rest, n - 1);
    }
}

/// Is `b` ASCII white space?
pub fn byte_is_space(b: u8) -> (r: bool)
    ensures
        r == is_space(b),
{
    b == 32 || (9 <= b && b <= 13)
}

/// The end of the word that starts at `start`: the first white space at or
/// after it, or the end of `s`.
pub fn word_end(s: &[u8], start: usize) -> (end: usize)
    requires
        start <= s.len(),
    ensures
        start <= end <= s.len(),
        end - start == word_len(s@.subrange(start as int, s@.len() as int)),
{
    let mut i: usize = start;
    while i < s.len() && !byte_is_space(s[i])
        invariant
            start <= i <= s.len(),
            forall|k: int| start <= k < i ==> !is_space(#[trigger] s@[k]),
        decreases s.len() - i,
    {
        i += 1;
    }
    proof {
        let tail = s@.subrange(start as int, s@.len() as int);
        assert forall|k: int| 0 <= k < i - start implies !is_space(#[trigger] tail[k]) by {
            assert(tail[k] == s@[start + k]);
        }
        lemma_word_len_unique(tail, i - start);
    }
    i
}

/// Does `s` hold a space character?
pub fn has_space(s: &[u8]) -> (r: bool)
    ensures
        r == (index_of_byte(s@, 32) < s@.len()),
{
    find_byte(s, 32) < s.len()
}

/// `s` without the white space at its head.
pub open spec fn trim_start(s: Seq<u8>) -> Seq<u8>
    decreases s.len(),
{
    if s.len() > 0 && is_space(s[0]) {
        trim_start(s.drop_first())
    } else {
        s
    }
}

/// `s` without the white space at its end.
pub open spec fn trim_end(s: Seq<u8>) -> Seq<u8>
    decreases s.len(),
{
    if s.len() > 0 && is_space(s.last()) {
        trim_end(s.drop_last())
    } else {
        s
    }
}

/// `s` without the white space at either end.
pub open spec fn trimmed(s: Seq<u8>) -> Seq<u8> {
    trim_end(trim_start(s))
}

/// Removes ASCII white space from both ends of `s`.
pub fn trim(s: &[u8]) -> (r: &[u8])
    ensures
        r@ == trimmed(s@),
{
    let mut a: usize = 0;
    assert(s@.subrange(0, s@.len() as int) =~= s@);
    while a < s.len() && byte_is_space(s[a])
        invariant
            a <= s.len(),
            trim_start(s@) == trim_start(s@.subrange(a as int, s@.len() as int)),
        decreases s.len() - a,
    {
        proof {
            let cur = s@.subrange(a as int, s@.len() as int);
            assert(cur[0] == s@[a as int]);
            assert(cur.drop_first() =~= s@.subrange(a + 1, s@.len() as int));
        }
        a += 1;
    }
    proof {
        assert(s@.subrange(0, s@.len() as int) =~= s@);
        let cur = s@.subrange(a as int, s@.len() as int);
        if a < s.len() {
            assert(cur[0] == s@[a as int]);
        }
        assert(trim_start(s@) == cur);
    }
    let mut b: usize = s.len();
    while b > a && byte_is_space(s[b - 1])
        invariant
            a <= b <= s.len(),
            trimmed(s@) == trim_end(s@.subrange(a as int, b as int)),
        decreases b,
    {
        proof {
            let cur = s@.subrange(a as int, b as int);
            assert(cur.last() == s@[b - 1]);
            assert(cur.drop_last() =~= s@.subrange(a as int, b - 1));
        }
        b -= 1;
    }
    proof {
        let cur = s@.subrange(a as int, b as int);
        if b > a {
            assert(cur.last() == s@[b - 1]);
        }
        assert(trim_end(cur) == cur);
    }
    slice_subrange(s, a, b)
}


/// A word that starts with a byte other than white space holds at least
/// that byte, and no word is longer than its text.
pub proof fn lemma_word_len_bounds(s: Seq<u8>)
    ensures
        0 <= word_len(s) <= s.len(),
        s.len() > 0 && !is_space(s[0]) ==> word_len(s) >= 1,
    decreases s.len(),
{
    if s.len() == 0 || is_space(s[0]) {
    } else {
        lemma_word_len_bounds(s.drop_first());
    }
}

} // verus!
