//! Small text utilities shared by the protocol and policy modules:
//! decimal rendering and parsing, ASCII case folding, substring search.

use vstd::prelude::*;

verus! {

// ---------------------------------------------------------------------------
// Decimal rendering
// ---------------------------------------------------------------------------

/// The character for one decimal digit value.
pub open spec fn dec_digit(d: nat) -> char {
    if d == 0 {
        '0'
    } else if d == 1 {
        '1'
    } else if d == 2 {
        '2'
    } else if d == 3 {
        '3'
    } else if d == 4 {
        '4'
    } else if d == 5 {
        '5'
    } else if d == 6 {
        '6'
    } else if d == 7 {
        '7'
    } else if d == 8 {
        '8'
    } else {
        '9'
    }
}

/// Decimal rendering of a natural number, most significant digit first.
pub open spec fn spec_dec_u64(n: nat) -> Seq<char>
    decreases n,
{
    if n < 10 {
        seq![dec_digit(n)]
    } else {
        spec_dec_u64(n / 10).push(dec_digit(n % 10))
    }
}

/// The number encoded by a little-endian digit list `digits`, sitting below
/// the already-consumed high part `rest`.
pub open spec fn le_value(digits: Seq<u64>, rest: nat) -> nat
    decreases digits.len(),
{
    if digits.len() == 0 {
        rest
    } else {
        le_value(digits.drop_last(), rest * 10 + (digits.last() as nat))
    }
}

/// Rendering of a little-endian digit list: last (most significant) digit first.
pub open spec fn le_render(digits: Seq<u64>) -> Seq<char>
    decreases digits.len(),
{
    if digits.len() == 0 {
        Seq::empty()
    } else {
        le_render(digits.drop_first()).push(dec_digit(digits[0] as nat % 10))
    }
}

proof fn lemma_le_render_pull_last(digits: Seq<u64>)
    requires
        digits.len() > 0,
        forall|i: int| 0 <= i < digits.len() ==> digits[i] < 10,
    ensures
        le_render(digits) == seq![dec_digit(digits.last() as nat)] + le_render(digits.drop_last()),
    decreases digits.len(),
{
    if digits.len() == 1 {
        assert(le_render(digits.drop_first()) == Seq::<char>::empty());
        assert(le_render(digits) =~= seq![dec_digit(digits.last() as nat)] + le_render(
            digits.drop_last(),
        ));
    } else {
        let front = digits.drop_first();
        lemma_le_render_pull_last(front);
        assert(front.drop_last() =~= digits.drop_last().drop_first());
        assert(le_render(digits) == le_render(front).push(dec_digit(digits[0] as nat % 10)));
        assert((seq![dec_digit(front.last() as nat)] + le_render(front.drop_last())).push(
            dec_digit(digits[0] as nat % 10),
        ) =~= seq![dec_digit(digits.last() as nat)] + le_render(digits.drop_last()));
    }
}

proof fn lemma_le_value_render(digits: Seq<u64>, rest: nat)
    requires
        digits.len() > 0,
        forall|i: int| 0 <= i < digits.len() ==> digits[i] < 10,
        rest == 0 ==> digits.len() == 1 || digits.last() > 0,
    ensures
        rest == 0 ==> le_render(digits) == spec_dec_u64(le_value(digits, 0)),
        rest > 0 ==> spec_dec_u64(le_value(digits, rest)) == spec_dec_u64(rest) + le_render(digits),
    decreases digits.len(),
{
    let d = digits.last() as nat;
    let rest2 = rest * 10 + d;
    lemma_le_render_pull_last(digits);
    if digits.len() == 1 {
        assert(digits.drop_last() =~= Seq::<u64>::empty());
        assert(le_value(Seq::<u64>::empty(), rest2) == rest2);
        assert(le_value(digits, rest) == rest2);
        assert(le_render(digits) =~= seq![dec_digit(d)]);
        if rest == 0 {
            assert(spec_dec_u64(d) == seq![dec_digit(d)]);
        } else {
            assert(rest2 / 10 == rest && rest2 % 10 == d) by (nonlinear_arith)
                requires
                    rest2 == rest * 10 + d,
                    d < 10,
                    rest > 0,
            ;
            assert(rest2 >= 10);
            assert(spec_dec_u64(rest2) == spec_dec_u64(rest).push(dec_digit(d)));
            assert(spec_dec_u64(rest).push(dec_digit(d)) =~= spec_dec_u64(rest) + seq![
                dec_digit(d),
            ]);
        }
    } else {
        let low = digits.drop_last();
        lemma_le_value_render(low, rest2);
        assert(rest2 > 0);
        assert(spec_dec_u64(le_value(digits, rest)) == spec_dec_u64(rest2) + le_render(low));
        if rest == 0 {
            assert(rest2 == d);
            assert(spec_dec_u64(d) == seq![dec_digit(d)]);
            assert(seq![dec_digit(d)] + le_render(low) == le_render(digits));
        } else {
            assert(rest2 / 10 == rest && rest2 % 10 == d) by (nonlinear_arith)
                requires
                    rest2 == rest * 10 + d,
                    d < 10,
                    rest > 0,
            ;
            assert(rest2 >= 10);
            assert(spec_dec_u64(rest2) == spec_dec_u64(rest).push(dec_digit(d)));
            assert((spec_dec_u64(rest).push(dec_digit(d))) + le_render(low) =~= spec_dec_u64(rest)
                + (seq![dec_digit(d)] + le_render(low)));
        }
    }
}

fn digit_str(d: u64) -> (r: &'static str)
    requires
        d < 10,
    ensures
        r@ == seq![dec_digit(d as nat)],
{
    proof {
        reveal_strlit("0");
        reveal_strlit("1");
        reveal_strlit("2");
        reveal_strlit("3");
        reveal_strlit("4");
        reveal_strlit("5");
        reveal_strlit("6");
        reveal_strlit("7");
        reveal_strlit("8");
        reveal_strlit("9");
    }
    let r = match d {
        0 => "0",
        1 => "1",
        2 => "2",
        3 => "3",
        4 => "4",
        5 => "5",
        6 => "6",
        7 => "7",
        8 => "8",
        _ => "9",
    };
    assert(r@ =~= seq![dec_digit(d as nat)]);
    r
}

/// Renders an unsigned number in decimal.
pub fn u64_to_dec(n: u64) -> (r: String)
    ensures
        r@ == spec_dec_u64(n as nat),
{
    let mut rev: Vec<u64> = Vec::new();
    rev.push(n % 10);
    let mut m = n / 10;
    proof {
        assert(rev@.last() == n % 10);
        assert(rev@.drop_last() =~= Seq::<u64>::empty());
        assert(le_value(Seq::<u64>::empty(), (m as nat) * 10 + (n % 10) as nat) == (m as nat) * 10
            + (n % 10) as nat);
        assert(le_value(rev@, m as nat) == (m as nat) * 10 + (n % 10) as nat);
    }
    while m > 0
        invariant
            forall|i: int| 0 <= i < rev@.len() ==> rev@[i] < 10,
            le_value(rev@, m as nat) == n as nat,
            rev@.len() > 0,
            m == 0 ==> rev@.len() == 1 || rev@.last() > 0,
        decreases m,
    {
        let ghost prev = rev@;
        let ghost prev_m = m as nat;
        rev.push(m % 10);
        m = m / 10;
        proof {
            assert(rev@.drop_last() =~= prev);
            assert(le_value(rev@, m as nat) == le_value(prev, prev_m));
        }
    }
    proof {
        lemma_le_value_render(rev@, 0);
    }
    let ghost digits = rev@;
    let mut out = String::new();
    let mut i = rev.len();
    while i > 0
        invariant
            i <= digits.len(),
            rev@ == digits,
            forall|k: int| 0 <= k < digits.len() ==> digits[k] < 10,
            out@ == le_render(digits.subrange(i as int, digits.len() as int)),
        decreases i,
    {
        i = i - 1;
        let d = rev[i];
        out.append(digit_str(d));
        proof {
            let sub = digits.subrange(i as int, digits.len() as int);
            assert(sub.drop_first() =~= digits.subrange(i + 1, digits.len() as int));
            assert(le_render(sub) == le_render(sub.drop_first()).push(
                dec_digit(sub[0] as nat % 10),
            ));
            assert(sub[0] as nat % 10 == sub[0] as nat);
            assert(out@ =~= le_render(sub));
        }
    }
    proof {
        assert(digits.subrange(0, digits.len() as int) =~= digits);
    }
    out
}

/// Appends one character.  Relies on `String::push` of std: the string
/// grows by exactly that character at the end.
#[verifier::external_body]
pub(crate) fn push_char(s: &mut String, c: char)
    ensures
        final(s)@ == old(s)@.push(c),
{
    s.push(c);
}

// ---------------------------------------------------------------------------
// Decimal parsing
// ---------------------------------------------------------------------------

/// Whether a character is one of the ten decimal digits.
pub open spec fn is_dec_digit(c: char) -> bool {
    48 <= c as int <= 57
}

/// The numeric value of a decimal digit character.
pub open spec fn digit_val(c: char) -> nat {
    (c as int - 48) as nat
}

/// Whether every character of a text is a decimal digit.
pub open spec fn all_dec_digits(s: Seq<char>) -> bool {
    forall|i: int| 0 <= i < s.len() ==> is_dec_digit(s[i])
}

/// The number written by a digit sequence, most significant digit first.
pub open spec fn dec_val(s: Seq<char>) -> nat
    decreases s.len(),
{
    if s.len() == 0 {
        0
    } else {
        dec_val(s.drop_last()) * 10 + digit_val(s.last())
    }
}

/// What parsing a text as an unsigned 64-bit decimal number yields: the
/// value when the text is one or more digits and the value fits, else nothing.
pub open spec fn spec_parse_u64(s: Seq<char>) -> Option<u64> {
    if s.len() > 0 && all_dec_digits(s) && dec_val(s) <= u64::MAX {
        Some(dec_val(s) as u64)
    } else {
        None
    }
}

proof fn lemma_dec_val_grows(s: Seq<char>, i: int)
    requires
        0 <= i <= s.len(),
        all_dec_digits(s),
    ensures
        dec_val(s.subrange(0, i)) <= dec_val(s),
    decreases s.len() - i,
{
    if i < s.len() {
        let p = s.subrange(0, i);
        let q = s.subrange(0, i + 1);
        assert(q.drop_last() =~= p);
        assert(dec_val(q) == dec_val(p) * 10 + digit_val(q.last()));
        assert(dec_val(p) <= dec_val(p) * 10) by (nonlinear_arith)
            requires
                dec_val(p) >= 0,
        ;
        lemma_dec_val_grows(s, i + 1);
    } else {
        assert(s.subrange(0, i) =~= s);
    }
}

/// Parses a text as an unsigned decimal number: succeeds exactly on a
/// nonempty all-digit text whose value fits in 64 bits.
pub fn parse_u64(s: &str) -> (r: Option<u64>)
    ensures
        r == spec_parse_u64(s@),
{
    let len = s.unicode_len();
    if len == 0 {
        return None;
    }
    let mut acc: u64 = 0;
    let mut i: usize = 0;
    while i < len
        invariant
            0 <= i <= len,
            len == s@.len(),
            forall|k: int| 0 <= k < i ==> is_dec_digit(s@[k]),
            acc as nat == dec_val(s@.subrange(0, i as int)),
        decreases len - i,
    {
        let c = s.get_char(i);
        let u = c as u32;
        if u < 48 || u > 57 {
            return None;
        }
        let d: u64 = (u - 48) as u64;
        let ghost prefix = s@.subrange(0, i as int);
        let scaled = match acc.checked_mul(10) {
            Some(v) => v,
            None => {
                proof {
                    lemma_dec_val_grows_from(s@, i as int, d as nat);
                }
                return None;
            },
        };
        let next = match scaled.checked_add(d) {
            Some(v) => v,
            None => {
                proof {
                    lemma_dec_val_grows_from(s@, i as int, d as nat);
                }
                return None;
            },
        };
        acc = next;
        i = i + 1;
        proof {
            assert(s@.subrange(0, i as int).drop_last() =~= prefix);
        }
    }
    proof {
        assert(s@.subrange(0, len as int) =~= s@);
    }
    Some(acc)
}

proof fn lemma_dec_val_grows_from(s: Seq<char>, i: int, d: nat)
    requires
        0 <= i < s.len(),
        forall|k: int| 0 <= k <= i ==> is_dec_digit(s[k]),
        digit_val(s[i]) == d,
    ensures
        dec_val(s) >= dec_val(s.subrange(0, i)) * 10 + d || !all_dec_digits(s),
{
    if all_dec_digits(s) {
        let q = s.subrange(0, i + 1);
        assert(q.drop_last() =~= s.subrange(0, i));
        assert(q.last() == s[i]);
        assert(dec_val(q) == dec_val(s.subrange(0, i)) * 10 + d);
        lemma_dec_val_grows(s, i + 1);
    }
}

// ---------------------------------------------------------------------------
// ASCII case folding
// ---------------------------------------------------------------------------

/// A character's code point with ASCII upper-case letters folded to lower case.
pub open spec fn fold_val(c: char) -> int {
    if 65 <= c as int <= 90 {
        c as int + 32
    } else {
        c as int
    }
}

/// Whether two texts are equal up to ASCII case.
pub open spec fn eq_nocase(a: Seq<char>, b: Seq<char>) -> bool {
    a.len() == b.len() && forall|i: int| 0 <= i < a.len() ==> fold_val(a[i]) == fold_val(b[i])
}

/// Compares two texts ignoring ASCII case.
pub fn str_eq_nocase(a: &str, b: &str) -> (r: bool)
    ensures
        r == eq_nocase(a@, b@),
{
    let alen = a.unicode_len();
    let blen = b.unicode_len();
    if alen != blen {
        return false;
    }
    let mut i: usize = 0;
    while i < alen
        invariant
            0 <= i <= alen,
            alen == a@.len() && alen == b@.len(),
            forall|k: int| 0 <= k < i ==> fold_val(a@[k]) == fold_val(b@[k]),
        decreases alen - i,
    {
        let ca = a.get_char(i) as u32;
        let cb = b.get_char(i) as u32;
        let fa = if 65 <= ca && ca <= 90 {
            ca + 32
        } else {
            ca
        };
        let fb = if 65 <= cb && cb <= 90 {
            cb + 32
        } else {
            cb
        };
        if fa != fb {
            return false;
        }
        i = i + 1;
    }
    true
}

// ---------------------------------------------------------------------------
// Trimming
// ---------------------------------------------------------------------------

/// Whether a character is ASCII whitespace.
pub open spec fn is_ascii_ws(c: char) -> bool {
    c as int == 32 || c as int == 9 || c as int == 10 || c as int == 13 || c as int == 12
}

/// A text without its leading ASCII whitespace.
pub open spec fn spec_trim_start(s: Seq<char>) -> Seq<char>
    decreases s.len(),
{
    if s.len() > 0 && is_ascii_ws(s[0]) {
        spec_trim_start(s.drop_first())
    } else {
        s
    }
}

/// A text without its trailing ASCII whitespace.
pub open spec fn spec_trim_end(s: Seq<char>) -> Seq<char>
    decreases s.len(),
{
    if s.len() > 0 && is_ascii_ws(s.last()) {
        spec_trim_end(s.drop_last())
    } else {
        s
    }
}

/// A text without ASCII whitespace at either end.
pub open spec fn spec_trim(s: Seq<char>) -> Seq<char> {
    spec_trim_end(spec_trim_start(s))
}

proof fn lemma_trim_start_at(s: Seq<char>, i: int)
    requires
        0 <= i <= s.len(),
        forall|k: int| 0 <= k < i ==> is_ascii_ws(s[k]),
        i < s.len() ==> !is_ascii_ws(s[i]),
    ensures
        spec_trim_start(s) == s.subrange(i, s.len() as int),
    decreases i,
{
    if i == 0 {
        assert(s.subrange(0, s.len() as int) =~= s);
    } else {
        let t = s.drop_first();
        lemma_trim_start_at(t, i - 1);
        assert(t.subrange(i - 1, t.len() as int) =~= s.subrange(i, s.len() as int));
    }
}

proof fn lemma_trim_end_at(s: Seq<char>, j: int)
    requires
        0 <= j <= s.len(),
        forall|k: int| j <= k < s.len() ==> is_ascii_ws(s[k]),
        j > 0 ==> !is_ascii_ws(s[j - 1]),
    ensures
        spec_trim_end(s) == s.subrange(0, j),
    decreases s.len() - j,
{
    if j == s.len() {
        assert(s.subrange(0, j) =~= s);
    } else {
        let t = s.drop_last();
        lemma_trim_end_at(t, j);
        assert(t.subrange(0, j) =~= s.subrange(0, j));
    }
}

/// Whether a character is ASCII whitespace.
pub fn ws_char(c: char) -> (r: bool)
    ensures
        r == is_ascii_ws(c),
{
    let u = c as u32;
    u == 32 || u == 9 || u == 10 || u == 13 || u == 12
}

/// Removes ASCII whitespace from both ends of a text.
pub fn trim_ascii(s: &str) -> (r: String)
    ensures
        r@ == spec_trim(s@),
{
    let len = s.unicode_len();
    let mut i: usize = 0;
    while i < len && ws_char(s.get_char(i))
        invariant
            0 <= i <= len,
            len == s@.len(),
            forall|k: int| 0 <= k < i ==> is_ascii_ws(s@[k]),
        decreases len - i,
    {
        i = i + 1;
    }
    let mut j: usize = len;
    while j > i && ws_char(s.get_char(j - 1))
        invariant
            i <= j <= len,
            len == s@.len(),
            forall|k: int| j <= k < len ==> is_ascii_ws(s@[k]),
        decreases j,
    {
        j = j - 1;
    }
    proof {
        lemma_trim_start_at(s@, i as int);
        let t = s@.subrange(i as int, len as int);
        lemma_trim_end_at(t, j - i);
        assert(t.subrange(0, j - i) =~= s@.subrange(i as int, j as int));
    }
    let piece = s.substring_char(i, j);
    String::from_str(piece)
}

/// Compares two texts character by character.
pub fn str_eq(a: &str, b: &str) -> (r: bool)
    ensures
        r == (a@ == b@),
{
    let alen = a.unicode_len();
    let blen = b.unicode_len();
    if alen != blen {
        return false;
    }
    let mut i: usize = 0;
    while i < alen
        invariant
            0 <= i <= alen,
            alen == a@.len() && alen == b@.len(),
            forall|k: int| 0 <= k < i ==> a@[k] == b@[k],
        decreases alen - i,
    {
        if a.get_char(i) != b.get_char(i) {
            return false;
        }
        i = i + 1;
    }
    proof {
        assert(a@ =~= b@);
    }
    true
}

// ---------------------------------------------------------------------------
// Substring search
// ---------------------------------------------------------------------------

/// Whether `needle` occurs in `hay` starting at position `i`.
pub open spec fn contains_at(hay: Seq<char>, needle: Seq<char>, i: int) -> bool {
    0 <= i && i + needle.len() <= hay.len() && hay.subrange(i, i + needle.len()) == needle
}

/// Whether `needle` occurs anywhere in `hay`.
pub open spec fn spec_contains(hay: Seq<char>, needle: Seq<char>) -> bool {
    exists|i: int| contains_at(hay, needle, i)
}

/// Substring search: whether `needle` occurs in `hay`.
pub fn contains_sub(hay: &str, needle: &str) -> (r: bool)
    ensures
        r == spec_contains(hay@, needle@),
{
    let hlen = hay.unicode_len();
    let nlen = needle.unicode_len();
    if nlen > hlen {
        assert(!spec_contains(hay@, needle@));
        return false;
    }
    if nlen == 0 {
        assert(hay@.subrange(0, 0) =~= needle@);
        assert(contains_at(hay@, needle@, 0));
        return true;
    }
    let mut i: usize = 0;
    while i <= hlen - nlen
        invariant
            0 <= i <= hlen - nlen + 1,
            0 < nlen <= hlen,
            hlen == hay@.len() && nlen == needle@.len(),
            forall|k: int| 0 <= k < i ==> !contains_at(hay@, needle@, k),
        decreases hlen + 1 - nlen - i,
    {
        let mut j: usize = 0;
        let mut matched = true;
        while j < nlen && matched
            invariant
                0 <= j <= nlen,
                0 <= i <= hlen - nlen,
                hlen == hay@.len() && nlen == needle@.len(),
                matched ==> forall|k: int| 0 <= k < j ==> hay@[i + k] == needle@[k],
                !matched ==> !contains_at(hay@, needle@, i as int),
            decreases nlen - j + (if matched {
                1int
            } else {
                0int
            }),
        {
            if hay.get_char(i + j) != needle.get_char(j) {
                matched = false;
                proof {
                    assert(hay@.subrange(i as int, i + nlen) != needle@) by {
                        assert(hay@.subrange(i as int, i + nlen)[j as int] != needle@[j as int]);
                    }
                }
            } else {
                j = j + 1;
            }
        }
        if matched {
            proof {
                assert(hay@.subrange(i as int, i + nlen) =~= needle@);
                assert(contains_at(hay@, needle@, i as int));
            }
            return true;
        }
        i = i + 1;
    }
    proof {
        assert forall|k: int| !contains_at(hay@, needle@, k) by {
            if 0 <= k && k + needle@.len() <= hay@.len() {
                assert(k < i);
            }
        }
    }
    false
}

} // verus!
