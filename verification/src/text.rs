//! Small text-building helpers shared by the JSON encoder and the query
//! planner: appending single characters and rendering decimal numbers.

use vstd::prelude::*;

verus! {

/// Relies on `String::push`: appends the given character to the end of the
/// string.
#[verifier::external_body]
pub fn push_char(s: &mut String, c: char)
    ensures
        final(s)@ == old(s)@.push(c),
{
    s.push(c);
}

/// The character for a single decimal digit.
pub open spec fn dec_digit(d: nat) -> char
    recommends
        d < 10,
{
    ((d + 48) as u8) as char
}

/// The decimal rendering of `n`, most significant digit first, with no
/// leading zeros (`0` itself renders as a single digit).
pub open spec fn dec_rep(n: nat) -> Seq<char>
    decreases n,
{
    if n < 10 {
        seq![dec_digit(n)]
    } else {
        dec_rep(n / 10).push(dec_digit(n % 10))
    }
}

/// Appends the decimal rendering of `n` to `out`.
pub fn push_decimal(out: &mut String, n: u32)
    ensures
        final(out)@ == old(out)@ + dec_rep(n as nat),
{
    let mut digits: Vec<char> = Vec::new();
    let mut m: u32 = n;
    loop
        invariant_except_break
            dec_rep(n as nat) =~= dec_rep(m as nat) + digits@.reverse(),
            m == 0 ==> digits@.len() == 0,
        ensures
            dec_rep(n as nat) =~= digits@.reverse(),
        decreases m,
    {
        let d: u8 = (m % 10) as u8;
        let c: char = (d + 48) as char;
        proof {
            let ds = digits@;
            assert(ds.push(c).reverse() =~= seq![c] + ds.reverse());
            if m >= 10 {
                assert(dec_rep(m as nat) == dec_rep((m as nat) / 10).push(dec_digit(
                    (m as nat) % 10,
                )));
                assert(dec_rep((m / 10) as nat) + ds.push(c).reverse() =~= dec_rep(m as nat)
                    + ds.reverse());
            } else {
                assert(dec_rep(m as nat) =~= seq![c]);
            }
        }
        digits.push(c);
        m = m / 10;
        if m == 0 {
            break;
        }
    }
    let ghost base = out@;
    let n_digits: usize = digits.len();
    for i in 0..n_digits
        invariant
            n_digits == digits@.len(),
            out@ =~= base + digits@.reverse().take(i as int),
    {
        proof {
            assert(digits@.reverse()[i as int] == digits@[n_digits - 1 - i]);
            assert(digits@.reverse().take(i + 1) =~= digits@.reverse().take(i as int).push(
                digits@.reverse()[i as int],
            ));
        }
        push_char(out, digits[n_digits - 1 - i]);
    }
    proof {
        assert(digits@.reverse().take(n_digits as int) =~= digits@.reverse());
        assert(dec_rep(n as nat) =~= digits@.reverse());
    }
}

/// The decimal rendering of `n` as a fresh string.
pub fn u32_to_string(n: u32) -> (r: String)
    ensures
        r@ == dec_rep(n as nat),
{
    let mut s = String::new();
    push_decimal(&mut s, n);
    s
}

} // verus!
