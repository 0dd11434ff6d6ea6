use vstd::prelude::*;

verus! {

/// The ASCII digit for `d`.
pub open spec fn digit_char(d: nat) -> char {
    if d == 0 { '0' }
    else if d == 1 { '1' }
    else if d == 2 { '2' }
    else if d == 3 { '3' }
    else if d == 4 { '4' }
    else if d == 5 { '5' }
    else if d == 6 { '6' }
    else if d == 7 { '7' }
    else if d == 8 { '8' }
    else { '9' }
}

/// The decimal digits of `n`, most significant first, without leading zeros.
pub open spec fn decimal_digits(n: nat) -> Seq<char>
    decreases n,
{
    if n < 10 {
        seq![digit_char(n)]
    } else {
        decimal_digits(n / 10).push(digit_char(n % 10))
    }
}

/// The decimal text of `v`, as `i32::to_string` prints it.
pub open spec fn i32_decimal(v: i32) -> Seq<char> {
    if v < 0 {
        seq!['-'] + decimal_digits((-v) as nat)
    } else {
        decimal_digits(v as nat)
    }
}

fn digit(d: u64) -> (c: char)
    requires
        d < 10,
    ensures
        c == digit_char(d as nat),
{
    match d {
        0 => '0',
        1 => '1',
        2 => '2',
        3 => '3',
        4 => '4',
        5 => '5',
        6 => '6',
        7 => '7',
        8 => '8',
        _ => '9',
    }
}

fn push_decimal(n: u64, out: &mut String)
    ensures
        final(out)@ == old(out)@ + decimal_digits(n as nat),
    decreases n,
{
    if n >= 10 {
        push_decimal(n / 10, out);
    }
    out.push(digit(n % 10));
}

/// The printed form of a finished hash value: its decimal text.
pub fn finish_hash(value: i32) -> (s: String)
    ensures
        s@ == i32_decimal(value),
{
    let mut s = String::new();
    if value < 0 {
        s.push('-');
        let magnitude: u64 = (0i64 - value as i64) as u64;
        push_decimal(magnitude, &mut s);
    } else {
        push_decimal(value as u64, &mut s);
    }
    assert(s@ =~= i32_decimal(value));
    s
}

} // verus!

verus! {

/// The decimal text of any value is non-empty.
pub proof fn lemma_decimal_nonempty(v: i32)
    ensures
        i32_decimal(v).len() > 0,
{
    let n: nat = if v < 0 { (-v) as nat } else { v as nat };
    if n >= 10 {
        assert(decimal_digits(n).len() == decimal_digits(n / 10).len() + 1);
    }
}

} // verus!
