//! Small verified text utilities: string comparison, concatenation and
//! decimal rendering of unsigned integers.  The rest of the engine builds
//! every expression, history line and menu line out of these.

use vstd::prelude::*;

verus! {

/// Compares two string slices; true exactly when they hold the same
/// characters.
pub fn str_eq(a: &str, b: &str) -> (r: bool)
    ensures
        r == (a@ == b@),
{
    let sa: String = a.to_owned();
    let sb: String = b.to_owned();
    sa == sb
}

/// Concatenates two string slices into a fresh `String`.
pub fn concat2(x: &str, y: &str) -> (r: String)
    ensures
        r@ == x@ + y@,
{
    let mut s = x.to_owned();
    s.append(y);
    s
}

/// Concatenates three string slices into a fresh `String`.
pub fn concat3(x: &str, y: &str, z: &str) -> (r: String)
    ensures
        r@ == x@ + y@ + z@,
{
    let mut s = x.to_owned();
    s.append(y);
    s.append(z);
    s
}

/// Concatenates four string slices into a fresh `String`.
pub fn concat4(x: &str, y: &str, z: &str, w: &str) -> (r: String)
    ensures
        r@ == x@ + y@ + z@ + w@,
{
    let mut s = x.to_owned();
    s.append(y);
    s.append(z);
    s.append(w);
    s
}

/// Concatenates five string slices into a fresh `String`.
pub fn concat5(x: &str, y: &str, z: &str, w: &str, v: &str) -> (r: String)
    ensures
        r@ == x@ + y@ + z@ + w@ + v@,
{
    let mut s = x.to_owned();
    s.append(y);
    s.append(z);
    s.append(w);
    s.append(v);
    s
}

/// The character for one decimal digit.
pub open spec fn digit_char(d: nat) -> char {
    if d == 0 {
        '0'
    } else if d == 1 {
        '1'
    } else if d == 2 {
        '2'
    } else if d == 3 {
        '3'
    } else if d == 4 {
        '4'
    } else if d == 5 {
        '5'
    } else if d == 6 {
        '6'
    } else if d == 7 {
        '7'
    } else if d == 8 {
        '8'
    } else {
        '9'
    }
}

/// The usual decimal rendering of `n`: most significant digit first, no
/// leading zeros (a lone `0` for zero itself).
pub open spec fn spec_dec(n: nat) -> Seq<char>
    decreases n,
{
    if n < 10 {
        seq![digit_char(n)]
    } else {
        spec_dec(n / 10).push(digit_char(n % 10))
    }
}

/// One decimal digit as a string slice.
fn digit_str(d: u64) -> (r: &'static str)
    requires
        d < 10,
    ensures
        r@ == seq![digit_char(d as nat)],
{
    let r: &'static str = if d == 0 {
        "0"
    } else if d == 1 {
        "1"
    } else if d == 2 {
        "2"
    } else if d == 3 {
        "3"
    } else if d == 4 {
        "4"
    } else if d == 5 {
        "5"
    } else if d == 6 {
        "6"
    } else if d == 7 {
        "7"
    } else if d == 8 {
        "8"
    } else {
        "9"
    };
    proof {
        reveal_strlit("0");
        reveal_strlit("1");
        reveal_strlit("2");
        reveal_strlit("3");
        reveal_strlit("4");
        reveal_strlit("5");
        reveal_strlit("6");
        reveal_strlit("7");
        reveal_strlit("8");
        reveal_strlit("9");
        assert(r@ =~= seq![digit_char(d as nat)]);
    }
    r
}

/// Renders `n` in decimal.
pub fn u64_to_dec(n: u64) -> (r: String)
    ensures
        r@ == spec_dec(n as nat),
    decreases n,
{
    if n < 10 {
        digit_str(n).to_owned()
    } else {
        let mut s = u64_to_dec(n / 10);
        s.append(digit_str(n % 10));
        proof {
            assert(s@ =~= spec_dec((n / 10) as nat).push(digit_char((n % 10) as nat)));
        }
        s
    }
}

} // verus!
