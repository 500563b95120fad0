//! Verified helpers on strings: equality, decimal parsing and printing.
//!
//! Reply fields arrive as strings; the protocol logic needs exact, verified
//! conversions between those strings and the numeric lengths, command
//! identifiers and account identifiers they carry.

use vstd::prelude::*;

use crate::wire::ascii_digit;

verus! {

/// Whether every character of `s` is an ASCII digit.
pub open spec fn all_digits(s: Seq<char>) -> bool {
    forall|i: int| 0 <= i < s.len() ==> ascii_digit(#[trigger] s[i])
}

/// The integer value of a sequence of ASCII digits, most significant first.
pub open spec fn dec_val(s: Seq<char>) -> int
    decreases s.len(),
{
    if s.len() == 0 {
        0
    } else {
        dec_val(s.drop_last()) * 10 + (s.last() as u32 - '0' as u32)
    }
}

/// The digit part of an unsigned decimal literal: one leading `+` is allowed
/// and stripped.
pub open spec fn unsigned_body(s: Seq<char>) -> Seq<char> {
    if s.len() > 0 && s[0] == '+' {
        s.drop_first()
    } else {
        s
    }
}

/// Whether `s` is a well-formed unsigned decimal literal: an optional `+`,
/// then one or more digits.
pub open spec fn valid_unsigned(s: Seq<char>) -> bool {
    unsigned_body(s).len() > 0 && all_digits(unsigned_body(s))
}

/// The digit part of a signed decimal literal: one leading `+` or `-` is
/// allowed and stripped.
pub open spec fn signed_body(s: Seq<char>) -> Seq<char> {
    if s.len() > 0 && (s[0] == '+' || s[0] == '-') {
        s.drop_first()
    } else {
        s
    }
}

/// Whether `s` is a well-formed signed decimal literal.
pub open spec fn valid_signed(s: Seq<char>) -> bool {
    signed_body(s).len() > 0 && all_digits(signed_body(s))
}

/// The value of a signed decimal literal.
pub open spec fn signed_val(s: Seq<char>) -> int {
    if s.len() > 0 && s[0] == '-' {
        -dec_val(signed_body(s))
    } else {
        dec_val(signed_body(s))
    }
}

/// The value of a digit sequence is never negative.
pub proof fn lemma_dec_val_nonneg(s: Seq<char>)
    requires
        all_digits(s),
    ensures
        dec_val(s) >= 0,
    decreases s.len(),
{
    if s.len() > 0 {
        assert(all_digits(s.drop_last()));
        lemma_dec_val_nonneg(s.drop_last());
    }
}

/// Dropping trailing digits never increases the value.
pub proof fn lemma_dec_val_prefix_le(s: Seq<char>, m: int)
    requires
        all_digits(s),
        0 <= m <= s.len(),
    ensures
        dec_val(s.take(m)) <= dec_val(s),
    decreases s.len() - m,
{
    if m < s.len() {
        lemma_dec_val_prefix_le(s, m + 1);
        let t = s.take(m + 1);
        assert(t.drop_last() =~= s.take(m));
        assert(all_digits(t.drop_last()));
        lemma_dec_val_nonneg(t.drop_last());
        assert(dec_val(t) == dec_val(s.take(m)) * 10 + (t.last() as u32 - '0' as u32));
    } else {
        assert(s.take(m) =~= s);
    }
}

/// Whether two string slices hold the same characters.
pub fn str_eq(a: &str, b: &str) -> (r: bool)
    ensures
        r == (a@ == b@),
{
    let la = a.unicode_len();
    let lb = b.unicode_len();
    if la != lb {
        return false;
    }
    let mut i: usize = 0;
    while i < la
        invariant
            0 <= i <= la,
            la == a@.len(),
            la == b@.len(),
            forall|j: int| 0 <= j < i ==> a@[j] == b@[j],
        decreases la - i,
    {
        if a.get_char(i) != b.get_char(i) {
            return false;
        }
        i += 1;
    }
    proof {
        assert(a@ =~= b@);
    }
    true
}

/// Parse a non-empty sequence of ASCII digits whose value fits 64 bits.
/// Returns `None` on anything else.
pub fn parse_digits_u64(s: &str) -> (r: Option<u64>)
    ensures
        r is Some <==> s@.len() > 0 && all_digits(s@) && dec_val(s@) <= u64::MAX,
        r matches Some(n) ==> n == dec_val(s@),
{
    let len = s.unicode_len();
    if len == 0 {
        return None;
    }
    let mut acc: u64 = 0;
    let mut i: usize = 0;
    while i < len
        invariant
            0 <= i <= len,
            len == s@.len(),
            forall|j: int| 0 <= j < i ==> ascii_digit(#[trigger] s@[j]),
            acc == dec_val(s@.take(i as int)),
        decreases len - i,
    {
        let c = s.get_char(i);
        let v = c as u32;
        if v < 48 || v > 57 {
            proof {
                assert(!ascii_digit(s@[i as int]));
            }
            return None;
        }
        let d = (v - 48) as u64;
        let ghost pre = s@.take(i as int);
        let ghost ext = s@.take(i as int + 1);
        proof {
            assert(ext.drop_last() =~= pre);
            assert(ext.last() == s@[i as int]);
        }
        match acc.checked_mul(10) {
            Some(m) => {
                match m.checked_add(d) {
                    Some(next) => {
                        acc = next;
                    },
                    None => {
                        proof {
                            assert(dec_val(ext) == acc * 10 + d);
                            if all_digits(s@) {
                                lemma_dec_val_prefix_le(s@, i + 1);
                            }
                        }
                        return None;
                    },
                }
            },
            None => {
                proof {
                    lemma_dec_val_nonneg(pre);
                    assert(dec_val(ext) == acc * 10 + d);
                    if all_digits(s@) {
                        lemma_dec_val_prefix_le(s@, i + 1);
                    }
                }
                return None;
            },
        }
        i += 1;
    }
    proof {
        assert(s@.take(len as int) =~= s@);
    }
    Some(acc)
}

/// Parse an unsigned 64-bit decimal literal: an optional `+` followed by one
/// or more digits, whose value fits.  Returns `None` on anything else.
pub fn parse_u64(s: &str) -> (r: Option<u64>)
    ensures
        r is Some <==> valid_unsigned(s@) && dec_val(unsigned_body(s@)) <= u64::MAX,
        r matches Some(n) ==> n == dec_val(unsigned_body(s@)),
{
    let len = s.unicode_len();
    if len > 0 && s.get_char(0) == '+' {
        let rest = s.substring_char(1, len);
        proof {
            assert(rest@ =~= unsigned_body(s@));
        }
        parse_digits_u64(rest)
    } else {
        proof {
            assert(s@ =~= unsigned_body(s@));
        }
        parse_digits_u64(s)
    }
}

/// Parse an unsigned 32-bit decimal literal, as [`parse_u64`] but for values
/// that fit 32 bits.
pub fn parse_u32(s: &str) -> (r: Option<u32>)
    ensures
        r is Some <==> valid_unsigned(s@) && dec_val(unsigned_body(s@)) <= u32::MAX,
        r matches Some(n) ==> n == dec_val(unsigned_body(s@)),
{
    match parse_u64(s) {
        Some(n) => {
            if n <= 0xffff_ffff {
                Some(n as u32)
            } else {
                None
            }
        },
        None => {
            proof {
                if valid_unsigned(s@) && dec_val(unsigned_body(s@)) <= u32::MAX {
                    assert(dec_val(unsigned_body(s@)) <= u64::MAX);
                }
            }
            None
        },
    }
}

/// Parse a signed 64-bit decimal literal: an optional `+` or `-` followed by
/// one or more digits, whose value fits.  Returns `None` on anything else.
pub fn parse_i64(s: &str) -> (r: Option<i64>)
    ensures
        r is Some <==> valid_signed(s@) && i64::MIN <= signed_val(s@) <= i64::MAX,
        r matches Some(n) ==> n == signed_val(s@),
{
    let len = s.unicode_len();
    if len == 0 {
        return None;
    }
    let first = s.get_char(0);
    let neg = first == '-';
    let rest = if neg || first == '+' {
        s.substring_char(1, len)
    } else {
        s
    };
    proof {
        assert(rest@ =~= signed_body(s@));
    }
    match parse_digits_u64(rest) {
        Some(mag) => {
            if neg {
                if mag <= 0x7fff_ffff_ffff_ffff {
                    Some(-(mag as i64))
                } else if mag == 0x8000_0000_0000_0000 {
                    Some(i64::MIN)
                } else {
                    None
                }
            } else {
                if mag <= 0x7fff_ffff_ffff_ffff {
                    Some(mag as i64)
                } else {
                    None
                }
            }
        },
        None => {
            proof {
                if valid_signed(s@) && i64::MIN <= signed_val(s@) <= i64::MAX {
                    lemma_dec_val_nonneg(signed_body(s@));
                }
            }
            None
        },
    }
}

/// The decimal digit character for a value below ten.
pub open spec fn digit_char(d: int) -> char {
    if d == 0 {
        '0'
    } else if d == 1 {
        '1'
    } else if d == 2 {
        '2'
    } else if d == 3 {
        '3'
    } else if d == 4 {
        '4'
    } else if d == 5 {
        '5'
    } else if d == 6 {
        '6'
    } else if d == 7 {
        '7'
    } else if d == 8 {
        '8'
    } else {
        '9'
    }
}

/// The decimal rendering of an unsigned value, most significant digit first,
/// no sign and no leading zero (except for the value zero itself).
pub open spec fn dec_str(n: nat) -> Seq<char>
    decreases n,
{
    if n < 10 {
        seq![digit_char(n as int)]
    } else {
        dec_str(n / 10).push(digit_char((n % 10) as int))
    }
}

/// Every character of a decimal rendering is a digit.
pub proof fn lemma_dec_str_digits(n: nat)
    ensures
        all_digits(dec_str(n)),
        dec_str(n).len() > 0,
    decreases n,
{
    if n >= 10 {
        lemma_dec_str_digits(n / 10);
    }
}

/// A digit sequence is a valid parameter value: it holds no newline.
pub proof fn lemma_digits_value_ok(s: Seq<char>)
    requires
        all_digits(s),
    ensures
        crate::wire::value_ok(s),
{
}

/// Relies on `u64`'s `core::fmt::Display` implementation: the decimal
/// rendering of the value.
#[verifier::external_body]
pub fn u64_to_string(n: u64) -> (r: String)
    ensures
        r@ == dec_str(n as nat),
{
    format!("{}", n)
}

/// The decimal rendering of a signed value: a minus sign on a negative one,
/// then the digits of its magnitude.
pub open spec fn signed_dec_str(i: int) -> Seq<char> {
    if i < 0 {
        seq!['-'] + dec_str((-i) as nat)
    } else {
        dec_str(i as nat)
    }
}

/// A signed decimal rendering is a valid parameter value: it holds no
/// newline.
pub proof fn lemma_signed_dec_value_ok(i: int)
    ensures
        crate::wire::value_ok(signed_dec_str(i)),
{
    if i < 0 {
        lemma_dec_str_digits((-i) as nat);
        assert forall|j: int| 0 <= j < signed_dec_str(i).len() implies #[trigger] signed_dec_str(
            i,
        )[j] != '\n' by {
            if j > 0 {
                assert(signed_dec_str(i)[j] == dec_str((-i) as nat)[j - 1]);
            }
        }
    } else {
        lemma_dec_str_digits(i as nat);
        lemma_digits_value_ok(signed_dec_str(i));
    }
}

/// Relies on `i64`'s `core::fmt::Display` implementation: the decimal
/// rendering of the value, minus sign included.
#[verifier::external_body]
pub fn i64_to_string(n: i64) -> (r: String)
    ensures
        r@ == signed_dec_str(n as int),
{
    format!("{}", n)
}

/// The words of a list, joined with single spaces.
pub open spec fn join_sp(ws: Seq<Seq<char>>) -> Seq<char>
    decreases ws.len(),
{
    if ws.len() == 0 {
        Seq::empty()
    } else if ws.len() == 1 {
        ws[0]
    } else {
        join_sp(ws.drop_last()) + seq![' '] + ws.last()
    }
}

/// Join a list of words with single spaces.
pub fn join_spaces(v: &Vec<String>) -> (r: String)
    ensures
        r@ == join_sp(v@.map_values(|s: String| s@)),
{
    let ghost words = v@.map_values(|s: String| s@);
    let mut r = String::new();
    let mut i: usize = 0;
    while i < v.len()
        invariant
            0 <= i <= v.len(),
            words == v@.map_values(|s: String| s@),
            words.len() == v.len(),
            r@ == join_sp(words.take(i as int)),
        decreases v.len() - i,
    {
        if i > 0 {
            r.append(" ");
            proof {
                reveal_strlit(" ");
            }
        }
        r.append(v[i].as_str());
        proof {
            let t = words.take(i as int + 1);
            assert(t.drop_last() =~= words.take(i as int));
            assert(t.last() == words[i as int]);
            if i > 0 {
                assert(r@ =~= join_sp(words.take(i as int)) + seq![' '] + words[i as int]);
            } else {
                assert(r@ =~= words[0]);
            }
        }
        i += 1;
    }
    proof {
        assert(words.take(v.len() as int) =~= words);
    }
    r
}

/// The boolean value a parameter string denotes, if any: the wire protocol's
/// affirmative and negative forms.
pub open spec fn bool_of(s: Seq<char>) -> Option<bool> {
    if s == "y"@ || s == "yes"@ || s == "t"@ || s == "true"@ || s == "1"@ || s == "on"@ {
        Option::Some(true)
    } else if s == "n"@ || s == "no"@ || s == "f"@ || s == "false"@ || s == "0"@ || s == "off"@ {
        Option::Some(false)
    } else {
        Option::None
    }
}

/// Parse a boolean parameter value.
pub fn parse_bool(s: &str) -> (r: Option<bool>)
    ensures
        r == bool_of(s@),
{
    proof {
        reveal_strlit("y");
        reveal_strlit("yes");
        reveal_strlit("t");
        reveal_strlit("true");
        reveal_strlit("1");
        reveal_strlit("on");
        reveal_strlit("n");
        reveal_strlit("no");
        reveal_strlit("f");
        reveal_strlit("false");
        reveal_strlit("0");
        reveal_strlit("off");
    }
    if str_eq(s, "y") || str_eq(s, "yes") || str_eq(s, "t") || str_eq(s, "true") || str_eq(s, "1")
        || str_eq(s, "on") {
        Some(true)
    } else if str_eq(s, "n") || str_eq(s, "no") || str_eq(s, "f") || str_eq(s, "false") || str_eq(
        s,
        "0",
    ) || str_eq(s, "off") {
        Some(false)
    } else {
        None
    }
}

/// Split a string at spaces into its non-empty words.
pub fn split_spaces(s: &str) -> (r: Vec<String>)
    ensures
        forall|i: int|
            0 <= i < r@.len() ==> (#[trigger] r@[i])@.len() > 0 && !r@[i]@.contains(' '),
{
    let len = s.unicode_len();
    let mut out: Vec<String> = Vec::new();
    let mut i: usize = 0;
    while i < len
        invariant
            0 <= i <= len,
            len == s@.len(),
            forall|k: int|
                0 <= k < out@.len() ==> (#[trigger] out@[k])@.len() > 0 && !out@[k]@.contains(' '),
        decreases len - i,
    {
        if s.get_char(i) == ' ' {
            i += 1;
        } else {
            let start = i;
            i += 1;
            while i < len && s.get_char(i) != ' '
                invariant
                    start < i <= len,
                    len == s@.len(),
                    forall|j: int| start <= j < i ==> s@[j] != ' ',
                decreases len - i,
            {
                i += 1;
            }
            let word = s.substring_char(start, i);
            proof {
                assert(forall|j: int| 0 <= j < word@.len() ==> word@[j] != ' ');
                assert(!word@.contains(' '));
            }
            out.push(word.to_owned());
        }
    }
    out
}

} // verus!
