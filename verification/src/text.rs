//! Text helpers of the registry generator: equality, searching, decimal
//! numbers and the two patterns that the generator looks for.

use vstd::prelude::*;
use vstd::string::{StrSliceExecFns, StringExecFns};
use vstd::utf8::{valid_utf8, decode_utf8};

verus! {

/// `String::push`: appends one character.
#[verifier::external_body]
pub(crate) fn push_char(s: &mut String, c: char)
    ensures
        final(s)@ == old(s)@.push(c),
{
    s.push(c)
}

#[verifier::external_type_specification]
#[verifier::external_body]
pub struct ExUtf8Error(core::str::Utf8Error);

/// `core::str::from_utf8`: succeeds exactly on valid UTF-8, and then gives the
/// decoded text.
#[verifier::external_body]
pub(crate) fn str_from_utf8(v: &[u8]) -> (r: Result<&str, core::str::Utf8Error>)
    ensures
        r is Ok <==> valid_utf8(v@),
        r matches Ok(s) ==> s@ == decode_utf8(v@),
{
    core::str::from_utf8(v)
}

/// The characters of a string slice.
pub fn chars_of(s: &str) -> (r: Vec<char>)
    ensures
        r@ == s@,
{
    let n = s.unicode_len();
    let mut r: Vec<char> = Vec::new();
    let mut i: usize = 0;
    while i < n
        invariant
            n == s@.len(),
            i <= n,
            r@ == s@.take(i as int),
        decreases n - i,
    {
        let c = s.get_char(i);
        r.push(c);
        i = i + 1;
        assert(r@ =~= s@.take(i as int));
    }
    assert(s@.take(n as int) =~= s@);
    r
}

/// A string holding the given characters.
pub fn string_of(cs: &Vec<char>) -> (r: String)
    ensures
        r@ == cs@,
{
    let mut r = String::new();
    let mut i: usize = 0;
    while i < cs.len()
        invariant
            i <= cs@.len(),
            r@ == cs@.take(i as int),
        decreases cs@.len() - i,
    {
        push_char(&mut r, cs[i]);
        i = i + 1;
        assert(r@ =~= cs@.take(i as int));
    }
    assert(cs@.take(cs@.len() as int) =~= cs@);
    r
}

/// Whether two texts are equal.
pub fn same_text(a: &str, b: &str) -> (r: bool)
    ensures
        r == (a@ == b@),
{
    let x = a.to_owned();
    let y = b.to_owned();
    x == y
}

/// Appends a string slice.
pub fn append(out: &mut String, s: &str)
    ensures
        final(out)@ == old(out)@ + s@,
{
    out.append(s);
}

/// Whether `pat` occurs in `t` at index `i`.
pub open spec fn occurs_at(t: Seq<char>, pat: Seq<char>, i: int) -> bool {
    0 <= i && i + pat.len() <= t.len() && t.subrange(i, i + pat.len()) == pat
}

/// Whether `pat` occurs in `t`.
pub open spec fn contains_text(t: Seq<char>, pat: Seq<char>) -> bool {
    exists|i: int| #[trigger] occurs_at(t, pat, i)
}

/// Whether `pat` occurs in `t` at index `i` (executable).
fn occurs_at_exec(t: &Vec<char>, pat: &Vec<char>, i: usize) -> (r: bool)
    ensures
        r == occurs_at(t@, pat@, i as int),
{
    if i > t.len() || pat.len() > t.len() - i {
        return false;
    }
    let tl = t.len();
    let mut j: usize = 0;
    while j < pat.len()
        invariant
            tl == t@.len(),
            i + pat@.len() <= t@.len(),
            j <= pat@.len(),
            forall|k: int| 0 <= k < j ==> t@[i + k] == pat@[k],
        decreases pat@.len() - j,
    {
        assert(i + j < t@.len());
        if t[i + j] != pat[j] {
            assert(t@.subrange(i as int, i + pat@.len())[j as int] != pat@[j as int]);
            return false;
        }
        j = j + 1;
    }
    assert(t@.subrange(i as int, i + pat@.len()) =~= pat@);
    true
}

/// Whether `pat` occurs in `t`.
pub fn contains(t: &Vec<char>, pat: &Vec<char>) -> (r: bool)
    ensures
        r == contains_text(t@, pat@),
{
    let mut i: usize = 0;
    while i < t.len()
        invariant
            i <= t@.len(),
            forall|k: int| 0 <= k < i ==> !#[trigger] occurs_at(t@, pat@, k),
        decreases t@.len() - i,
    {
        if occurs_at_exec(t, pat, i) {
            return true;
        }
        i = i + 1;
    }
    if occurs_at_exec(t, pat, t.len()) {
        return true;
    }
    assert forall|k: int| !#[trigger] occurs_at(t@, pat@, k) by {
        if 0 <= k && k + pat@.len() <= t@.len() && k != t@.len() {
            assert(k < i);
        }
    }
    false
}

/// Number of occurrences of `c` in `s`.
pub open spec fn count_char(s: Seq<char>, c: char) -> nat
    decreases s.len(),
{
    if s.len() == 0 {
        0
    } else {
        count_char(s.drop_last(), c) + if s.last() == c { 1nat } else { 0nat }
    }
}

/// Number of occurrences of `c` in `s`, up to two.
pub fn count_char_upto_two(s: &Vec<char>, c: char) -> (r: usize)
    ensures
        r == (if count_char(s@, c) >= 2 { 2 } else { count_char(s@, c) }),
{
    let mut n: usize = 0;
    let mut i: usize = 0;
    while i < s.len()
        invariant
            i <= s@.len(),
            n == (if count_char(s@.take(i as int), c) >= 2 { 2 } else { count_char(s@.take(i as int), c) }),
        decreases s@.len() - i,
    {
        assert(s@.take(i + 1).drop_last() =~= s@.take(i as int));
        if s[i] == c && n < 2 {
            n = n + 1;
        }
        i = i + 1;
    }
    assert(s@.take(s@.len() as int) =~= s@);
    n
}

/// The character of a decimal digit.
pub open spec fn digit_char(d: int) -> char {
    (d + 48) as char
}

/// The decimal digits of a natural number, most significant first.
pub open spec fn decimal(n: nat) -> Seq<char>
    decreases n,
{
    if n < 10 {
        seq![digit_char(n as int)]
    } else {
        decimal(n / 10).push(digit_char((n % 10) as int))
    }
}

/// The decimal text of an integer: a minus sign before the digits of a
/// negative one.
pub open spec fn signed_decimal(v: int) -> Seq<char> {
    if v < 0 {
        seq!['-'] + decimal((-v) as nat)
    } else {
        decimal(v as nat)
    }
}

/// Appends the decimal digits of `n`.
pub fn push_decimal(out: &mut String, n: u64)
    ensures
        final(out)@ == old(out)@ + decimal(n as nat),
    decreases n,
{
    let ghost before = out@;
    if n >= 10 {
        push_decimal(out, n / 10);
    }
    let d = (n % 10) as u8;
    let c = (48u8 + d) as char;
    push_char(out, c);
    assert(out@ =~= before + decimal(n as nat));
}

/// Appends the decimal text of `v`, with a minus sign when it is negative.
pub fn push_signed_decimal(out: &mut String, v: i64)
    ensures
        final(out)@ == old(out)@ + signed_decimal(v as int),
{
    let ghost before = out@;
    if v < 0 {
        push_char(out, '-');
        let magnitude: u64 = (0 - (v + 1)) as u64 + 1;
        assert(magnitude == -(v as int));
        push_decimal(out, magnitude);
        assert(out@ =~= before + (seq!['-'] + decimal((-v) as nat)));
    } else {
        push_decimal(out, v as u64);
    }
}

/// Whether a character is a decimal digit.
pub open spec fn is_digit(c: char) -> bool {
    '0' <= c && c <= '9'
}

/// The value of a non-empty run of decimal digits.
pub open spec fn digits_value(s: Seq<char>) -> nat
    decreases s.len(),
{
    if s.len() == 0 {
        0
    } else {
        digits_value(s.drop_last()) * 10 + (s.last() as nat - 48) as nat
    }
}

/// Whether every character is a decimal digit.
pub open spec fn all_digits(s: Seq<char>) -> bool {
    forall|i: int| 0 <= i < s.len() ==> #[trigger] is_digit(s[i])
}

/// What `str::parse::<u32>` gives: an optional `+`, then at least one digit,
/// the value fitting in a `u32`.
pub open spec fn parse_u32_spec(s: Seq<char>) -> Option<u32> {
    let body = if s.len() > 0 && s[0] == '+' { s.drop_first() } else { s };
    if body.len() == 0 || !all_digits(body) || digits_value(body) > u32::MAX {
        None
    } else {
        Some(digits_value(body) as u32)
    }
}

/// What `str::parse::<i32>` gives: an optional `+` or `-`, then at least one
/// digit, the value fitting in an `i32`.
pub open spec fn parse_i32_spec(s: Seq<char>) -> Option<i32> {
    let negative = s.len() > 0 && s[0] == '-';
    let body = if s.len() > 0 && (s[0] == '+' || s[0] == '-') { s.drop_first() } else { s };
    if body.len() == 0 || !all_digits(body) {
        None
    } else if negative {
        if digits_value(body) > 0x8000_0000 {
            None
        } else {
            Some((0 - digits_value(body)) as i32)
        }
    } else if digits_value(body) > 0x7fff_ffff {
        None
    } else {
        Some(digits_value(body) as i32)
    }
}

/// A value of digits grows with every further digit.
proof fn lemma_digits_value_prefix(s: Seq<char>, i: int)
    requires
        0 <= i <= s.len(),
    ensures
        digits_value(s.take(i)) <= digits_value(s),
    decreases s.len() - i,
{
    if i < s.len() {
        lemma_digits_value_prefix(s, i + 1);
        assert(s.take(i + 1).drop_last() =~= s.take(i));
    } else {
        assert(s.take(i) =~= s);
    }
}

/// The value of the digits of `s` from index `start`, when all are digits and
/// the value is at most `limit`; `None` otherwise.
fn digits_value_upto(s: &Vec<char>, start: usize, limit: u64) -> (r: Option<u64>)
    requires
        start <= s@.len(),
        limit <= u32::MAX as u64 + 1,
    ensures
        r is Some <==> (all_digits(s@.skip(start as int)) && digits_value(s@.skip(start as int)) <= limit),
        r matches Some(v) ==> v == digits_value(s@.skip(start as int)),
{
    let ghost body = s@.skip(start as int);
    let mut v: u64 = 0;
    let mut i: usize = start;
    while i < s.len()
        invariant
            start <= i <= s@.len(),
            body == s@.skip(start as int),
            limit <= u32::MAX as u64 + 1,
            all_digits(body.take(i - start)),
            v == digits_value(body.take(i - start)),
            v <= limit,
        decreases s@.len() - i,
    {
        let c = s[i];
        let ghost k = i - start;
        assert(body.take(k + 1).drop_last() =~= body.take(k));
        assert(body[k] == c);
        if !('0' <= c && c <= '9') {
            assert(!is_digit(body[k]));
            return None;
        }
        let d = (c as u32 - 48) as u64;
        let nv = v * 10 + d;
        assert(all_digits(body.take(k + 1))) by {
            assert forall|j: int| 0 <= j < k + 1 implies #[trigger] is_digit(body.take(k + 1)[j]) by {
                if j < k {
                    assert(body.take(k + 1)[j] == body.take(k)[j]);
                }
            }
        }
        if nv > limit {
            proof {
                lemma_digits_value_prefix(body, k + 1);
            }
            return None;
        }
        v = nv;
        i = i + 1;
    }
    assert(body.take(i - start) =~= body);
    Some(v)
}

/// `str::parse::<u32>` on the characters of a text.
pub fn parse_u32(s: &Vec<char>) -> (r: Option<u32>)
    ensures
        r == parse_u32_spec(s@),
{
    let start: usize = if s.len() > 0 && s[0] == '+' { 1 } else { 0 };
    assert(s@.skip(start as int) == (if s@.len() > 0 && s@[0] == '+' { s@.drop_first() } else { s@ }));
    if start == s.len() {
        return None;
    }
    match digits_value_upto(s, start, u32::MAX as u64) {
        Some(v) => Some(v as u32),
        None => None,
    }
}

/// `str::parse::<i32>` on the characters of a text.
pub fn parse_i32(s: &Vec<char>) -> (r: Option<i32>)
    ensures
        r == parse_i32_spec(s@),
{
    let negative = s.len() > 0 && s[0] == '-';
    let start: usize = if s.len() > 0 && (s[0] == '+' || s[0] == '-') { 1 } else { 0 };
    assert(s@.skip(start as int) == (if s@.len() > 0 && (s@[0] == '+' || s@[0] == '-') {
        s@.drop_first()
    } else {
        s@
    }));
    if start == s.len() {
        return None;
    }
    let limit: u64 = if negative { 0x8000_0000 } else { 0x7fff_ffff };
    match digits_value_upto(s, start, limit) {
        Some(v) => {
            if negative {
                Some((0 - (v as i64)) as i32)
            } else {
                Some(v as i32)
            }
        },
        None => None,
    }
}

/// The pattern of an array size in a declaration: a digit or `+` in brackets.
pub const ARRAY_SIZE_PATTERN: &'static str = "\\[([0-9+])\\]";

/// The pattern of the digits that end a text.
pub const TRAILING_DIGITS_PATTERN: &'static str = "[0-9]+$";

/// Whether index `i` starts a match of `ARRAY_SIZE_PATTERN`: an opening
/// bracket, a digit or `+`, and a closing bracket.
pub open spec fn array_size_match_at(t: Seq<char>, i: int) -> bool {
    &&& 0 <= i
    &&& i + 3 <= t.len()
    &&& t[i] == '['
    &&& (is_digit(t[i + 1]) || t[i + 1] == '+')
    &&& t[i + 2] == ']'
}

/// The texts that capture group 1 of `ARRAY_SIZE_PATTERN` takes in the
/// matches from index `i` on, found from left to right without overlap.
pub open spec fn array_size_captures_from(t: Seq<char>, i: int) -> Seq<Seq<char>>
    decreases t.len() - i,
{
    if i < 0 || i >= t.len() {
        Seq::empty()
    } else if array_size_match_at(t, i) {
        seq![seq![t[i + 1]]] + array_size_captures_from(t, i + 3)
    } else {
        array_size_captures_from(t, i + 1)
    }
}

/// The character that capture group 1 takes in the last match of
/// `ARRAY_SIZE_PATTERN` in a text, or `None`.
pub open spec fn last_array_size(t: Seq<char>) -> Option<char> {
    let c = array_size_captures_from(t, 0);
    if c.len() > 0 {
        Some(c.last()[0])
    } else {
        None
    }
}

/// Every capture of `ARRAY_SIZE_PATTERN` is one character.
proof fn lemma_array_size_captures(t: Seq<char>, i: int)
    ensures
        forall|k: int| 0 <= k < array_size_captures_from(t, i).len() ==> (#[trigger] array_size_captures_from(t, i)[k]).len()
            == 1,
    decreases t.len() - i,
{
    if 0 <= i < t.len() {
        if array_size_match_at(t, i) {
            lemma_array_size_captures(t, i + 3);
            let rest = array_size_captures_from(t, i + 3);
            let c = array_size_captures_from(t, i);
            assert(c == seq![seq![t[i + 1]]] + rest);
            assert forall|k: int| 0 <= k < c.len() implies (#[trigger] c[k]).len() == 1 by {
                if k > 0 {
                    assert(c[k] == rest[k - 1]);
                }
            }
        } else {
            lemma_array_size_captures(t, i + 1);
            assert(array_size_captures_from(t, i) == array_size_captures_from(t, i + 1));
        }
    }
}

/// The views of a list of strings.
pub open spec fn strings_view(s: Seq<String>) -> Seq<Seq<char>> {
    s.map_values(|x: String| x@)
}

/// `regex::Regex::new(ARRAY_SIZE_PATTERN)` and `Regex::captures_iter`: the
/// text of capture group 1 of each match in `t`, in order. Matches are found
/// from the left without overlap; a match of this pattern is a bracket, a
/// digit or `+`, and a bracket, three characters.
#[verifier::external_body]
fn regex_captures(pattern: &str, t: &str) -> (r: Vec<String>)
    requires
        pattern@ == ARRAY_SIZE_PATTERN@,
    ensures
        strings_view(r@) == array_size_captures_from(t@, 0),
{
    regex::Regex::new(pattern).unwrap().captures_iter(t).map(|c| c[1].to_string()).collect()
}

/// The size captured by the last match of `ARRAY_SIZE_PATTERN` in a text, if any.
pub fn last_array_size_exec(t: &str) -> (r: Option<char>)
    ensures
        r == last_array_size(t@),
{
    let caps = regex_captures(ARRAY_SIZE_PATTERN, t);
    if caps.len() == 0 {
        return None;
    }
    let last = caps.len() - 1;
    proof {
        lemma_array_size_captures(t@, 0);
        assert(strings_view(caps@)[last as int] == caps@[last as int]@);
    }
    Some(caps[last].as_str().get_char(0))
}

/// The start of the run of digits that ends the text (the text's length when
/// it does not end with a digit).
pub open spec fn trailing_digits_start(t: Seq<char>, n: int) -> int
    decreases n,
{
    if n <= 0 {
        0
    } else if is_digit(t[n - 1]) {
        trailing_digits_start(t, n - 1)
    } else {
        n
    }
}

/// What `TRAILING_DIGITS_PATTERN` matches in a text: the digits that end it,
/// when there is at least one.
pub open spec fn trailing_digits(t: Seq<char>) -> Option<Seq<char>> {
    let s = trailing_digits_start(t, t.len() as int);
    if s < t.len() {
        Some(t.subrange(s, t.len() as int))
    } else {
        None
    }
}

/// `regex::Regex::new(TRAILING_DIGITS_PATTERN)` and `Regex::captures`: the
/// whole match in `t`, which for this pattern is the run of digits that ends
/// the text (the leftmost place from which digits reach the end), if any.
#[verifier::external_body]
pub(crate) fn regex_trailing_digits(pattern: &str, t: &str) -> (r: Option<String>)
    requires
        pattern@ == TRAILING_DIGITS_PATTERN@,
    ensures
        r is Some <==> trailing_digits(t@) is Some,
        r matches Some(v) ==> v@ == trailing_digits(t@)->0,
{
    regex::Regex::new(pattern).unwrap().captures(t).map(|c| c[0].to_string())
}

/// The text with every `vk` removed, scanning from the left.
pub open spec fn remove_vk(s: Seq<char>) -> Seq<char>
    decreases s.len(),
{
    if s.len() == 0 {
        s
    } else if s.len() >= 2 && s[0] == 'v' && s[1] == 'k' {
        remove_vk(s.skip(2))
    } else {
        seq![s[0]] + remove_vk(s.skip(1))
    }
}

/// Appends the text with every `vk` removed (what `str::replace(.., "vk", "")`
/// gives).
pub fn push_without_vk(out: &mut String, s: &Vec<char>)
    ensures
        final(out)@ == old(out)@ + remove_vk(s@),
{
    let ghost before = out@;
    let mut i: usize = 0;
    assert(s@.skip(0) =~= s@);
    while i < s.len()
        invariant
            i <= s@.len(),
            before + remove_vk(s@) == out@ + remove_vk(s@.skip(i as int)),
        decreases s@.len() - i,
    {
        let ghost rest = s@.skip(i as int);
        if i + 1 < s.len() && s[i] == 'v' && s[i + 1] == 'k' {
            assert(rest.skip(2) =~= s@.skip(i + 2));
            i = i + 2;
        } else {
            push_char(out, s[i]);
            assert(rest.skip(1) =~= s@.skip(i + 1));
            assert(out@ + remove_vk(s@.skip(i + 1)) =~= before + remove_vk(s@));
            i = i + 1;
        }
    }
    assert(s@.skip(s@.len() as int) =~= Seq::<char>::empty());
    assert(out@ =~= out@ + remove_vk(Seq::<char>::empty()));
}

} // verus!
