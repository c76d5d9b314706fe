//! Verified character and string helpers: ASCII case folding, decimal
//! rendering of integers, and zero padding, together with the spec functions
//! that the rest of the crate states its contracts over.

use vstd::prelude::*;

verus! {

/// ASCII case folding of one character: `A`..`Z` map to `a`..`z`, everything
/// else is unchanged.
pub open spec fn lower_char(c: char) -> char {
    if 'A' <= c && c <= 'Z' {
        ((c as u32) + 32) as char
    } else {
        c
    }
}

/// ASCII case folding of a character sequence.
pub open spec fn lower_v(s: Seq<char>) -> Seq<char> {
    s.map_values(|c: char| lower_char(c))
}

/// Relies on String::push: appends the given character to the end of the
/// string.
#[verifier::external_body]
pub fn push_char(s: &mut String, c: char)
    ensures
        final(s)@ == old(s)@.push(c),
{
    s.push(c);
}

/// ASCII case folding, executable form.
pub fn to_lowercase(s: &str) -> (r: String)
    ensures
        r@ == lower_v(s@),
{
    let n = s.unicode_len();
    let mut r = String::new();
    let mut i: usize = 0;
    while i < n
        invariant
            i <= n,
            n == s@.len(),
            r@ == lower_v(s@.subrange(0, i as int)),
        decreases n - i,
    {
        let c = s.get_char(i);
        let lc: char = if 'A' <= c && c <= 'Z' {
            (((c as u32) + 32) as u8) as char
        } else {
            c
        };
        assert(lc == lower_char(c));
        push_char(&mut r, lc);
        i = i + 1;
        assert(r@ =~= lower_v(s@.subrange(0, i as int)));
    }
    assert(s@.subrange(0, n as int) =~= s@);
    r
}

/// Equality of two string slices, decided character by character.
pub fn str_eq_str(a: &str, b: &str) -> (r: bool)
    ensures
        r == (a@ == b@),
{
    let na = a.unicode_len();
    let nb = b.unicode_len();
    if na != nb {
        assert(a@ != b@);
        return false;
    }
    let mut i: usize = 0;
    while i < na
        invariant
            i <= na,
            na == a@.len(),
            na == b@.len(),
            forall|j: int| 0 <= j < i ==> a@[j] == b@[j],
        decreases na - i,
    {
        if a.get_char(i) != b.get_char(i) {
            assert(a@ != b@);
            return false;
        }
        i = i + 1;
    }
    assert(a@ =~= b@);
    true
}

/// Equality of two strings.
pub fn string_eq(a: &String, b: &String) -> (r: bool)
    ensures
        r == (a@ == b@),
{
    str_eq_str(a.as_str(), b.as_str())
}

/// The character for one decimal digit.
pub open spec fn digit_char(d: int) -> char {
    if d == 0 {
        '0'
    } else if d == 1 {
        '1'
    } else if d == 2 {
        '2'
    } else if d == 3 {
        '3'
    } else if d == 4 {
        '4'
    } else if d == 5 {
        '5'
    } else if d == 6 {
        '6'
    } else if d == 7 {
        '7'
    } else if d == 8 {
        '8'
    } else {
        '9'
    }
}

/// The numeric value of a decimal digit character; unspecified digits map
/// to 0.
pub open spec fn digit_val(c: char) -> int {
    if c == '0' {
        0
    } else if c == '1' {
        1
    } else if c == '2' {
        2
    } else if c == '3' {
        3
    } else if c == '4' {
        4
    } else if c == '5' {
        5
    } else if c == '6' {
        6
    } else if c == '7' {
        7
    } else if c == '8' {
        8
    } else {
        9
    }
}

/// Decimal rendering of a natural number, most significant digit first, no
/// leading zeros (a single `0` for zero).
pub open spec fn dec_v(n: nat) -> Seq<char>
    decreases n,
{
    if n < 10 {
        seq![digit_char(n as int)]
    } else {
        dec_v(n / 10) + seq![digit_char((n % 10) as int)]
    }
}

/// The number a digit sequence denotes, read most significant digit first.
pub open spec fn dec_val(s: Seq<char>) -> int
    decreases s.len(),
{
    if s.len() == 0 {
        0
    } else {
        dec_val(s.drop_last()) * 10 + digit_val(s.last())
    }
}

/// Reading back a decimal rendering yields the number it came from.
pub proof fn lemma_dec_val_of_dec(n: nat)
    ensures
        dec_val(dec_v(n)) == n,
    decreases n,
{
    if n < 10 {
        assert(dec_v(n) =~= seq![digit_char(n as int)]);
        assert(dec_v(n).drop_last() =~= Seq::<char>::empty());
        assert(dec_v(n).last() == digit_char(n as int));
        assert(digit_val(digit_char(n as int)) == n);
        assert(dec_val(Seq::<char>::empty()) == 0);
        assert(dec_val(dec_v(n)) == dec_val(dec_v(n).drop_last()) * 10 + digit_val(dec_v(n).last()));
    } else {
        lemma_dec_val_of_dec(n / 10);
        assert(dec_v(n).drop_last() =~= dec_v(n / 10));
        assert(dec_v(n).last() == digit_char((n % 10) as int));
        assert(dec_val(dec_v(n)) == (n / 10) * 10 + n % 10);
        assert((n / 10) * 10 + n % 10 == n) by {
            vstd::arithmetic::div_mod::lemma_fundamental_div_mod(n as int, 10);
        }
    }
}

/// Decimal rendering is injective.
pub proof fn lemma_dec_injective(a: nat, b: nat)
    requires
        dec_v(a) == dec_v(b),
    ensures
        a == b,
{
    lemma_dec_val_of_dec(a);
    lemma_dec_val_of_dec(b);
}

/// Decimal rendering of an unsigned number, executable form.
pub fn dec_string(n: u128) -> (r: String)
    ensures
        r@ == dec_v(n as nat),
    decreases n,
{
    let d: u128 = n % 10;
    let c: char = if d == 0 {
        '0'
    } else if d == 1 {
        '1'
    } else if d == 2 {
        '2'
    } else if d == 3 {
        '3'
    } else if d == 4 {
        '4'
    } else if d == 5 {
        '5'
    } else if d == 6 {
        '6'
    } else if d == 7 {
        '7'
    } else if d == 8 {
        '8'
    } else {
        '9'
    };
    assert(c == digit_char((n % 10) as int));
    if n < 10 {
        let mut r = String::new();
        push_char(&mut r, c);
        assert(r@ =~= dec_v(n as nat));
        r
    } else {
        let mut r = dec_string(n / 10);
        push_char(&mut r, c);
        assert(r@ =~= dec_v(n as nat));
        r
    }
}

/// A run of `k` zero characters.
pub open spec fn zeros_v(k: nat) -> Seq<char> {
    Seq::new(k, |i: int| '0')
}

/// What formatting an integer with a zero-pad width produces: the decimal
/// digits, left-padded with zeros up to the width; a negative value carries a
/// leading minus sign that counts toward the width.
pub open spec fn padded_v(v: int, width: nat) -> Seq<char> {
    if v >= 0 {
        let d = dec_v(v as nat);
        zeros_v(if d.len() < width {
            (width - d.len()) as nat
        } else {
            0
        }) + d
    } else {
        let d = dec_v((-v) as nat);
        seq!['-'] + zeros_v(if d.len() + 1 < width {
            (width - 1 - d.len()) as nat
        } else {
            0
        }) + d
    }
}

/// Appends `k` zero characters to a string.
fn push_zeros(s: &mut String, k: usize)
    ensures
        final(s)@ == old(s)@ + zeros_v(k as nat),
{
    let mut i: usize = 0;
    while i < k
        invariant
            i <= k,
            s@ == old(s)@ + zeros_v(i as nat),
        decreases k - i,
    {
        push_char(s, '0');
        i = i + 1;
        assert(s@ =~= old(s)@ + zeros_v(i as nat));
    }
}

/// Zero-padded decimal formatting of a signed number, executable form.
pub fn fmt_padded(v: i64, width: u8) -> (r: String)
    requires
        i32::MIN <= v <= i32::MAX,
    ensures
        r@ == padded_v(v as int, width as nat),
{
    let mut r = String::new();
    let mag: u64 = if v < 0 {
        (-v) as u64
    } else {
        v as u64
    };
    let digits = dec_string(mag as u128);
    let dlen = digits.as_str().unicode_len();
    if v < 0 {
        push_char(&mut r, '-');
        let pad: usize = if width as usize > dlen && width as usize - dlen > 1 {
            width as usize - 1 - dlen
        } else {
            0
        };
        push_zeros(&mut r, pad);
    } else {
        let pad: usize = if dlen < width as usize {
            width as usize - dlen
        } else {
            0
        };
        push_zeros(&mut r, pad);
    }
    r.append(digits.as_str());
    assert(r@ =~= padded_v(v as int, width as nat));
    r
}

} // verus!
