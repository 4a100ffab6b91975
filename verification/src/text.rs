//! Text primitives shared by the rest of the library.
//!
//! Strings are modelled by their view, a `Seq<char>`. The two operations of
//! `std` that the library needs and the verifier has no specification for
//! are given one here.

use vstd::prelude::*;
use vstd::string::StrSliceExecFns;
use vstd::string::StringExecFns;
use vstd::string::StringSliceAdditionalSpecFns;

verus! {

/// Whether two string slices hold the same characters. The slices are
/// compared byte by byte: two texts are the same exactly when their UTF-8
/// encodings are.
pub(crate) fn str_eq(a: &str, b: &str) -> (r: bool)
    ensures
        r == (a@ == b@),
{
    let x = a.as_bytes();
    let y = b.as_bytes();
    proof {
        vstd::utf8::encode_utf8_decode_utf8(a@);
        vstd::utf8::encode_utf8_decode_utf8(b@);
    }
    if x.len() != y.len() {
        return false;
    }
    let mut i: usize = 0;
    while i < x.len()
        invariant
            i <= x.len(),
            x.len() == y.len(),
            x@ == a.spec_bytes(),
            y@ == b.spec_bytes(),
            forall|k: int| 0 <= k < i ==> x@[k] == y@[k],
        decreases x.len() - i,
    {
        if x[i] != y[i] {
            return false;
        }
        i = i + 1;
    }
    assert(x@ =~= y@);
    true
}

/// `String::push` appends the given character and changes nothing else.
pub assume_specification[ String::push ](s: &mut String, c: char)
    ensures
        final(s)@ == old(s)@.push(c),
;

/// The lowercase form of a text as `str::to_lowercase` computes it from the
/// Unicode tables.
pub uninterp spec fn lowercase_of(text: Seq<char>) -> Seq<char>;

/// `str::to_lowercase`: the result is the lowercase form of the argument and
/// depends on nothing but the argument.
#[verifier::external_body]
pub(crate) fn to_lowercase(s: &str) -> (r: String)
    ensures
        r@ == lowercase_of(s@),
{
    s.to_lowercase()
}

/// The character that writes the decimal digit `d`.
pub open spec fn digit_char(d: nat) -> char {
    if d == 0 {
        '0'
    } else if d == 1 {
        '1'
    } else if d == 2 {
        '2'
    } else if d == 3 {
        '3'
    } else if d == 4 {
        '4'
    } else if d == 5 {
        '5'
    } else if d == 6 {
        '6'
    } else if d == 7 {
        '7'
    } else if d == 8 {
        '8'
    } else {
        '9'
    }
}

/// The decimal numeral of `n`, most significant digit first, without leading
/// zeros.
pub open spec fn decimal(n: nat) -> Seq<char>
    decreases n,
{
    if n < 10 {
        seq![digit_char(n)]
    } else {
        decimal(n / 10).push(digit_char(n % 10))
    }
}

fn digit(d: usize) -> (c: char)
    requires
        d < 10,
    ensures
        c == digit_char(d as nat),
{
    if d == 0 {
        '0'
    } else if d == 1 {
        '1'
    } else if d == 2 {
        '2'
    } else if d == 3 {
        '3'
    } else if d == 4 {
        '4'
    } else if d == 5 {
        '5'
    } else if d == 6 {
        '6'
    } else if d == 7 {
        '7'
    } else if d == 8 {
        '8'
    } else {
        '9'
    }
}

/// Writes `n` as a decimal numeral.
pub fn decimal_string(n: usize) -> (r: String)
    ensures
        r@ == decimal(n as nat),
    decreases n,
{
    if n < 10 {
        let mut s = String::new();
        s.push(digit(n));
        assert(s@ =~= seq![digit_char(n as nat)]);
        s
    } else {
        let mut s = decimal_string(n / 10);
        s.push(digit(n % 10));
        s
    }
}

/// The text `"true"` or `"false"`.
pub open spec fn bool_text(b: bool) -> Seq<char> {
    if b {
        "true"@
    } else {
        "false"@
    }
}

/// Writes a boolean as `true` or `false`.
pub fn bool_string(b: bool) -> (r: String)
    ensures
        r@ == bool_text(b),
{
    if b {
        String::from_str("true")
    } else {
        String::from_str("false")
    }
}

/// Reads `true` or `false`; any other text is no boolean.
pub open spec fn parsed_bool(text: Seq<char>) -> Option<bool> {
    if text == "true"@ {
        Some(true)
    } else if text == "false"@ {
        Some(false)
    } else {
        None
    }
}

/// Reads a boolean written as `true` or `false`, exactly.
pub fn parse_bool(text: &str) -> (r: Option<bool>)
    ensures
        r == parsed_bool(text@),
{
    if str_eq(text, "true") {
        Some(true)
    } else if str_eq(text, "false") {
        Some(false)
    } else {
        None
    }
}

/// The view of an optional string.
pub open spec fn opt_view(o: Option<String>) -> Option<Seq<char>> {
    match o {
        Some(s) => Some(s@),
        None => None,
    }
}

/// Copies an optional string.
pub fn clone_opt(o: &Option<String>) -> (r: Option<String>)
    ensures
        opt_view(r) == opt_view(*o),
{
    match o {
        Some(s) => Some(s.clone()),
        None => None,
    }
}

/// `text` with `c` put in front of the character at position `at`.
pub open spec fn with_char_at(text: Seq<char>, at: int, c: char) -> Seq<char> {
    text.subrange(0, at).push(c) + text.subrange(at, text.len() as int)
}

/// `text` without the character at position `at`.
pub open spec fn without_char_at(text: Seq<char>, at: int) -> Seq<char> {
    text.subrange(0, at) + text.subrange(at + 1, text.len() as int)
}

/// Inserts `c` before the character at position `at`, counted in characters.
pub fn insert_char(text: &str, at: usize, c: char) -> (r: String)
    requires
        at <= text@.len(),
    ensures
        r@ == with_char_at(text@, at as int, c),
{
    let len = text.unicode_len();
    let mut r = String::from_str(text.substring_char(0, at));
    r.push(c);
    r.append(text.substring_char(at, len));
    r
}

/// Removes the character at position `at`, counted in characters.
pub fn remove_char(text: &str, at: usize) -> (r: String)
    requires
        at < text@.len(),
    ensures
        r@ == without_char_at(text@, at as int),
{
    let len = text.unicode_len();
    let mut r = String::from_str(text.substring_char(0, at));
    r.append(text.substring_char(at + 1, len));
    r
}

/// How many bytes the UTF-8 encoding of a character takes.
pub open spec fn utf8_width(c: char) -> nat {
    if (c as u32) <= 0x7F {
        1
    } else if (c as u32) <= 0x7FF {
        2
    } else if (c as u32) <= 0xFFFF {
        3
    } else {
        4
    }
}

/// How many bytes the UTF-8 encoding of a text takes.
pub open spec fn utf8_len(text: Seq<char>) -> nat
    decreases text.len(),
{
    if text.len() == 0 {
        0
    } else {
        utf8_len(text.drop_last()) + utf8_width(text.last())
    }
}

/// How many characters from the start of `text` fit into `limit` bytes,
/// counted on from the first `k`, which are known to fit.
pub open spec fn fitting_from(text: Seq<char>, limit: nat, k: nat) -> nat
    decreases text.len() - k,
{
    if k < text.len() && utf8_len(text.take(k as int + 1)) <= limit {
        fitting_from(text, limit, k + 1)
    } else {
        k
    }
}

/// How many characters from the start of `text` fit into `limit` bytes.
pub open spec fn fitting_chars(text: Seq<char>, limit: nat) -> nat {
    fitting_from(text, limit, 0)
}

/// The bytes of two texts in a row are the bytes of both.
pub proof fn lemma_utf8_len_add(a: Seq<char>, b: Seq<char>)
    ensures
        utf8_len(a + b) == utf8_len(a) + utf8_len(b),
    decreases b.len(),
{
    if b.len() == 0 {
        assert(a + b =~= a);
    } else {
        assert((a + b).drop_last() =~= a + b.drop_last());
        lemma_utf8_len_add(a, b.drop_last());
    }
}

/// A longer start of a text takes no fewer bytes than a shorter one.
pub proof fn lemma_utf8_len_grows(text: Seq<char>, i: int, j: int)
    requires
        0 <= i <= j <= text.len(),
    ensures
        utf8_len(text.take(i)) <= utf8_len(text.take(j)),
{
    assert(text.take(j) =~= text.take(i) + text.subrange(i, j));
    lemma_utf8_len_add(text.take(i), text.subrange(i, j));
}

/// `utf8_len` counts the bytes of the UTF-8 encoding.
pub proof fn lemma_utf8_len_counts_bytes(text: Seq<char>)
    ensures
        utf8_len(text) == vstd::utf8::encode_utf8(text).len(),
    decreases text.len(),
{
    if text.len() > 0 {
        let first = text[0];
        vstd::utf8::char_is_scalar(first);
        assert(vstd::utf8::encode_scalar(first as u32).len() == utf8_width(first));
        assert(text =~= seq![first] + text.drop_first());
        lemma_utf8_len_add(seq![first], text.drop_first());
        assert(utf8_len(seq![first]) == utf8_width(first)) by {
            reveal_with_fuel(utf8_len, 2);
        }
        lemma_utf8_len_counts_bytes(text.drop_first());
    }
}

/// What `fitting_from` counts: the characters up to its result fit, and the
/// next one, if there is one, does not.
pub proof fn lemma_fitting_from(text: Seq<char>, limit: nat, k: nat)
    requires
        k <= text.len(),
        utf8_len(text.take(k as int)) <= limit,
    ensures
        k <= fitting_from(text, limit, k) <= text.len(),
        utf8_len(text.take(fitting_from(text, limit, k) as int)) <= limit,
        fitting_from(text, limit, k) < text.len() ==> utf8_len(
            text.take(fitting_from(text, limit, k) as int + 1),
        ) > limit,
    decreases text.len() - k,
{
    if k < text.len() && utf8_len(text.take(k as int + 1)) <= limit {
        lemma_fitting_from(text, limit, k + 1);
    }
}

/// The characters that `fitting_chars` counts are the longest start of the
/// text that fits into `limit` bytes.
pub proof fn lemma_fitting_chars(text: Seq<char>, limit: nat)
    ensures
        fitting_chars(text, limit) <= text.len(),
        utf8_len(text.take(fitting_chars(text, limit) as int)) <= limit,
        forall|k: int|
            fitting_chars(text, limit) < k <= text.len() ==> utf8_len(#[trigger] text.take(k))
                > limit,
{
    assert(text.take(0) =~= Seq::<char>::empty());
    lemma_fitting_from(text, limit, 0);
    let n = fitting_chars(text, limit);
    assert forall|k: int| n < k <= text.len() implies utf8_len(#[trigger] text.take(k)) > limit by {
        lemma_utf8_len_grows(text, n as int + 1, k);
    }
}

/// How many bytes the UTF-8 encoding of a character takes.
pub fn char_width(c: char) -> (w: usize)
    ensures
        w == utf8_width(c),
{
    let v = c as u32;
    if v <= 0x7F {
        1
    } else if v <= 0x7FF {
        2
    } else if v <= 0xFFFF {
        3
    } else {
        4
    }
}

/// Whether the UTF-8 encoding of `text` takes at most `max` bytes.
pub fn fits_in(text: &str, max: usize) -> (r: bool)
    ensures
        r == (utf8_len(text@) <= max),
{
    let mut sum: usize = 0;
    for c in it: text.chars()
        invariant
            sum == utf8_len(text@.take(it.index() as int)),
            sum <= max,
            it.seq() == text@,
    {
        let w = char_width(c);
        assert(text@.take(it.index() + 1).drop_last() =~= text@.take(it.index() as int));
        if w > max - sum {
            proof {
                lemma_utf8_len_grows(text@, it.index() + 1, text@.len() as int);
                assert(text@.take(text@.len() as int) =~= text@);
            }
            return false;
        }
        sum = sum + w;
    }
    assert(text@.take(text@.len() as int) =~= text@);
    true
}

/// How many characters from the start of `text` fit into `limit` bytes of
/// UTF-8.
pub fn count_fitting(text: &str, limit: usize) -> (k: usize)
    ensures
        k == fitting_chars(text@, limit as nat),
        k <= text@.len(),
{
    let mut sum: usize = 0;
    let mut count: usize = 0;
    assert(text@.take(0) =~= Seq::<char>::empty());
    for c in it: text.chars()
        invariant
            count == it.index(),
            count <= sum,
            sum == utf8_len(text@.take(it.index() as int)),
            sum <= limit,
            it.seq() == text@,
            fitting_chars(text@, limit as nat) == fitting_from(text@, limit as nat, count as nat),
    {
        let w = char_width(c);
        assert(text@.take(it.index() + 1).drop_last() =~= text@.take(it.index() as int));
        if w > limit - sum {
            return count;
        }
        sum = sum + w;
        count = count + 1;
    }
    count
}

} // verus!
