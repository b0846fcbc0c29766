//! Small text utilities shared by the decoders: exact and case-folded
//! string comparison, lowercase hexadecimal digits, and a trusted bridge
//! from character vectors to `String`.

use vstd::prelude::*;

verus! {

/// The uppercase-folding code of a character: an ASCII lowercase letter maps
/// to its uppercase counterpart's code, every other character to its own code.
pub open spec fn up_code(c: char) -> u32 {
    if 97 <= c as u32 && c as u32 <= 122 {
        (c as u32 - 32) as u32
    } else {
        c as u32
    }
}

/// The uppercase-folding codes of a text, position by position.
pub open spec fn up_codes(s: Seq<char>) -> Seq<u32> {
    Seq::new(s.len(), |i: int| up_code(s[i]))
}

/// Whether two texts are equal once ASCII case is folded away.
pub open spec fn eq_ascii_case_fold(a: Seq<char>, b: Seq<char>) -> bool {
    up_codes(a) == up_codes(b)
}

fn up_code_exec(c: char) -> (r: u32)
    ensures
        r == up_code(c),
{
    let n = c as u32;
    if 97 <= n && n <= 122 {
        n - 32
    } else {
        n
    }
}

/// Compares two strings for equality up to ASCII case.
pub fn str_eq_ascii_case_fold(a: &str, b: &str) -> (r: bool)
    ensures
        r == eq_ascii_case_fold(a@, b@),
{
    let alen = a.unicode_len();
    let blen = b.unicode_len();
    if alen != blen {
        proof {
            assert(up_codes(a@).len() != up_codes(b@).len());
        }
        return false;
    }
    let mut i: usize = 0;
    while i < alen
        invariant
            alen == a@.len(),
            alen == b@.len(),
            i <= alen,
            forall|j: int| 0 <= j < i ==> up_code(a@[j]) == up_code(b@[j]),
        decreases alen - i,
    {
        if up_code_exec(a.get_char(i)) != up_code_exec(b.get_char(i)) {
            proof {
                assert(up_codes(a@)[i as int] != up_codes(b@)[i as int]);
            }
            return false;
        }
        i += 1;
    }
    proof {
        assert(up_codes(a@) =~= up_codes(b@));
    }
    true
}

/// Compares two strings for exact equality.
pub fn str_eq(a: &str, b: &str) -> (r: bool)
    ensures
        r == (a@ == b@),
{
    let alen = a.unicode_len();
    let blen = b.unicode_len();
    if alen != blen {
        return false;
    }
    let mut i: usize = 0;
    while i < alen
        invariant
            alen == a@.len(),
            alen == b@.len(),
            i <= alen,
            forall|j: int| 0 <= j < i ==> a@[j] == b@[j],
        decreases alen - i,
    {
        if a.get_char(i) != b.get_char(i) {
            return false;
        }
        i += 1;
    }
    proof {
        assert(a@ =~= b@);
    }
    true
}

/// The lowercase hexadecimal digit of a value below sixteen.
pub open spec fn hex_digit(n: u8) -> char
    recommends
        n < 16,
{
    if n < 10 {
        ((n + 48) as u8) as char
    } else {
        ((n + 87) as u8) as char
    }
}

/// Computes the lowercase hexadecimal digit of a value below sixteen.
pub fn hex_digit_exec(n: u8) -> (r: char)
    requires
        n < 16,
    ensures
        r == hex_digit(n),
{
    if n < 10 {
        (n + 48) as char
    } else {
        (n + 87) as char
    }
}

/// Relies on `String`'s `FromIterator` impl: collecting characters yields the
/// string of exactly those characters, in order.
#[verifier::external_body]
pub fn chars_to_string(cs: &Vec<char>) -> (r: String)
    ensures
        r@ == cs@,
{
    cs.iter().collect()
}

} // verus!
