//! The text forms of the numbers and flags that go into URLs and query
//! strings.

use vstd::prelude::*;

verus! {

/// The character that writes the digit `d`.
pub open spec fn digit(d: nat) -> char {
    if d == 0 {
        '0'
    } else if d == 1 {
        '1'
    } else if d == 2 {
        '2'
    } else if d == 3 {
        '3'
    } else if d == 4 {
        '4'
    } else if d == 5 {
        '5'
    } else if d == 6 {
        '6'
    } else if d == 7 {
        '7'
    } else if d == 8 {
        '8'
    } else {
        '9'
    }
}

/// `n` in base ten, most significant digit first, without padding.
pub open spec fn decimal(n: nat) -> Seq<char>
    decreases n,
{
    if n < 10 {
        seq![digit(n)]
    } else {
        decimal(n / 10).push(digit(n % 10))
    }
}

/// `i` in base ten, with a leading minus sign when it is negative.
pub open spec fn signed_decimal(i: int) -> Seq<char> {
    if i < 0 {
        seq!['-'] + decimal((-i) as nat)
    } else {
        decimal(i as nat)
    }
}

/// The word for a flag.
pub open spec fn flag(b: bool) -> Seq<char> {
    if b {
        "true"@
    } else {
        "false"@
    }
}

/// Appends the digit `d` to `s`.
fn push_digit(s: &mut String, d: u64)
    requires
        d < 10,
    ensures
        final(s)@ == old(s)@.push(digit(d as nat)),
{
    proof {
        reveal_strlit("0");
        reveal_strlit("1");
        reveal_strlit("2");
        reveal_strlit("3");
        reveal_strlit("4");
        reveal_strlit("5");
        reveal_strlit("6");
        reveal_strlit("7");
        reveal_strlit("8");
        reveal_strlit("9");
    }
    let ghost before = s@;
    if d == 0 {
        s.append("0");
    } else if d == 1 {
        s.append("1");
    } else if d == 2 {
        s.append("2");
    } else if d == 3 {
        s.append("3");
    } else if d == 4 {
        s.append("4");
    } else if d == 5 {
        s.append("5");
    } else if d == 6 {
        s.append("6");
    } else if d == 7 {
        s.append("7");
    } else if d == 8 {
        s.append("8");
    } else {
        s.append("9");
    }
    assert(s@ =~= before.push(digit(d as nat)));
}

/// Writes `n` in base ten.
pub fn u64_text(n: u64) -> (s: String)
    ensures
        s@ == decimal(n as nat),
    decreases n,
{
    if n < 10 {
        let mut s = String::new();
        push_digit(&mut s, n);
        assert(s@ =~= decimal(n as nat));
        s
    } else {
        let mut s = u64_text(n / 10);
        push_digit(&mut s, n % 10);
        s
    }
}

/// Writes `i` in base ten, with a minus sign in front when it is negative.
pub fn i64_text(i: i64) -> (s: String)
    ensures
        s@ == signed_decimal(i as int),
{
    if i < 0 {
        // -(i + 1) fits in an i64 for every negative i, i64::MIN included.
        let below: i64 = -(i + 1);
        let magnitude: u64 = below as u64 + 1;
        let digits = u64_text(magnitude);
        let mut s = "-".to_owned();
        s.append(digits.as_str());
        proof {
            reveal_strlit("-");
            assert(s@ =~= signed_decimal(i as int));
        }
        s
    } else {
        u64_text(i as u64)
    }
}

/// Writes a flag as `true` or `false`.
pub fn bool_text(b: bool) -> (s: String)
    ensures
        s@ == flag(b),
{
    if b {
        "true".to_owned()
    } else {
        "false".to_owned()
    }
}

/// `host` followed by `path`.
pub fn join(host: &str, path: &str) -> (s: String)
    ensures
        s@ == host@ + path@,
{
    let mut s = host.to_owned();
    s.append(path);
    s
}

/// `host`, then `prefix`, then `id` in base ten, then `leaf`.
pub fn join_id(host: &str, prefix: &str, id: i64, leaf: &str) -> (s: String)
    ensures
        s@ == host@ + prefix@ + signed_decimal(id as int) + leaf@,
{
    let mut s = host.to_owned();
    s.append(prefix);
    let digits = i64_text(id);
    s.append(digits.as_str());
    s.append(leaf);
    s
}

} // verus!
