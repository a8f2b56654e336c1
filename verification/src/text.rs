//! Character-level helpers: string comparison, decimal rendering, and the
//! trusted lowercasing primitive that slug generation builds on.

use vstd::prelude::*;

verus! {

/// Compares two string slices character by character.
pub fn str_eq(a: &str, b: &str) -> (r: bool)
    ensures
        r == (a@ == b@),
{
    let alen = a.unicode_len();
    let blen = b.unicode_len();
    if alen != blen {
        return false;
    }
    let mut i: usize = 0;
    while i < alen
        invariant
            i <= alen,
            alen == a@.len(),
            blen == b@.len(),
            alen == blen,
            forall|k: int| 0 <= k < i ==> a@[k] == b@[k],
        decreases alen - i,
    {
        if a.get_char(i) != b.get_char(i) {
            return false;
        }
        i = i + 1;
    }
    proof {
        assert(a@ =~= b@);
    }
    true
}

/// Relies on String::push: appends one character to the end of the string.
#[verifier::external_body]
pub(crate) fn push_char(s: &mut String, c: char)
    ensures
        final(s)@ == old(s)@.push(c),
{
    s.push(c);
}

/// The Unicode lowercasing of a sequence of characters, as `str::to_lowercase`
/// computes it; the result depends on the characters alone.
pub uninterp spec fn lower_of(s: Seq<char>) -> Seq<char>;

/// Relies on str::to_lowercase: Unicode lowercasing, a function of the
/// characters alone.
#[verifier::external_body]
pub(crate) fn lowercase(s: &str) -> (r: String)
    ensures
        r@ == lower_of(s@),
{
    s.to_lowercase()
}

/// The decimal digit `d` as a character; `d` must lie below 10.
pub open spec fn digit_char(d: int) -> char {
    if d == 0 {
        '0'
    } else if d == 1 {
        '1'
    } else if d == 2 {
        '2'
    } else if d == 3 {
        '3'
    } else if d == 4 {
        '4'
    } else if d == 5 {
        '5'
    } else if d == 6 {
        '6'
    } else if d == 7 {
        '7'
    } else if d == 8 {
        '8'
    } else {
        '9'
    }
}

/// The decimal representation of `n`, most significant digit first.
pub open spec fn dec_of(n: u64) -> Seq<char>
    decreases n,
{
    if n < 10 {
        seq![digit_char(n as int)]
    } else {
        dec_of(n / 10).push(digit_char((n % 10) as int))
    }
}

proof fn lemma_reverse_push<A>(s: Seq<A>, x: A)
    ensures
        s.push(x).reverse() =~= seq![x] + s.reverse(),
{
}

/// Converts the digit value `d` (below 10) into its character.
fn digit_to_char(d: u64) -> (r: char)
    requires
        d < 10,
    ensures
        r == digit_char(d as int),
{
    if d == 0 {
        '0'
    } else if d == 1 {
        '1'
    } else if d == 2 {
        '2'
    } else if d == 3 {
        '3'
    } else if d == 4 {
        '4'
    } else if d == 5 {
        '5'
    } else if d == 6 {
        '6'
    } else if d == 7 {
        '7'
    } else if d == 8 {
        '8'
    } else {
        '9'
    }
}

/// Renders `n` in decimal.
pub fn u64_to_dec(n: u64) -> (r: String)
    ensures
        r@ == dec_of(n),
{
    let mut digits: Vec<char> = Vec::new();
    let mut m: u64 = n;
    digits.push(digit_to_char(m % 10));
    proof {
        if n >= 10 {
            assert(dec_of(n) == dec_of(n / 10).push(digit_char((n % 10) as int)));
            assert(dec_of(n) =~= dec_of(n / 10) + digits@.reverse());
        } else {
            assert(dec_of(n) =~= digits@.reverse());
        }
    }
    m = m / 10;
    while m > 0
        invariant
            digits@.len() >= 1,
            m == 0 ==> dec_of(n) =~= digits@.reverse(),
            m > 0 ==> dec_of(n) =~= dec_of(m) + digits@.reverse(),
        decreases m,
    {
        let ghost old_digits = digits@;
        let ghost old_m = m;
        digits.push(digit_to_char(m % 10));
        proof {
            lemma_reverse_push(old_digits, digit_char((old_m % 10) as int));
        }
        m = m / 10;
        proof {
            if old_m < 10 {
                assert(old_m % 10 == old_m);
                assert(dec_of(old_m) =~= seq![digit_char((old_m % 10) as int)]);
                assert(dec_of(n) =~= digits@.reverse());
            } else {
                assert(dec_of(old_m) == dec_of(old_m / 10).push(
                    digit_char((old_m % 10) as int),
                ));
                assert(dec_of(old_m) =~= dec_of(m) + seq![digit_char((old_m % 10) as int)]);
                assert(dec_of(n) =~= dec_of(m) + digits@.reverse());
            }
        }
    }
    let mut s = String::new();
    let mut j: usize = digits.len();
    while j > 0
        invariant
            j <= digits@.len(),
            dec_of(n) =~= digits@.reverse(),
            s@ =~= digits@.reverse().subrange(0, digits@.len() - j),
        decreases j,
    {
        j = j - 1;
        push_char(&mut s, digits[j]);
        proof {
            assert(s@ =~= digits@.reverse().subrange(0, digits@.len() - j));
        }
    }
    proof {
        assert(digits@.reverse().subrange(0, digits@.len() as int) =~= digits@.reverse());
    }
    s
}

} // verus!
