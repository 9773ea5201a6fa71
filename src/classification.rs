use crate::numeric::Numeric;
use vstd::arithmetic::div_mod::lemma_mod_mod;
use vstd::prelude::*;

verus! {

/// What one index of the sequence becomes.
#[derive(Debug, PartialEq)]
pub enum FizzOrBuzz<T> {
    Fizz,
    Buzz,
    FizzBuzz,
    Number(T),
}

/// `c` is the right classification of the integer `i`.
pub open spec fn classifies<T: Numeric>(c: FizzOrBuzz<T>, i: int) -> bool {
    match c {
        FizzOrBuzz::FizzBuzz => i % 15 == 0,
        FizzOrBuzz::Fizz => i % 3 == 0 && i % 5 != 0,
        FizzOrBuzz::Buzz => i % 5 == 0 && i % 3 != 0,
        FizzOrBuzz::Number(n) => n.value() == i && i % 3 != 0 && i % 5 != 0,
    }
}

/// Fifteen divides an integer exactly when both three and five do.
pub proof fn lemma_fifteen(i: int)
    ensures
        (i % 15 == 0) == (i % 3 == 0 && i % 5 == 0),
{
    lemma_mod_mod(i, 3, 5);
    lemma_mod_mod(i, 5, 3);
    let r = i % 15;
    assert(0 <= r < 15);
    assert((r % 3 == 0 && r % 5 == 0) == (r == 0)) by {
        assert(r == 0 || r == 1 || r == 2 || r == 3 || r == 4 || r == 5 || r == 6 || r == 7
            || r == 8 || r == 9 || r == 10 || r == 11 || r == 12 || r == 13 || r == 14);
    }
}

/// A classification of `i` is each variant exactly under its divisibility
/// condition, and a number carries `i` itself.
pub proof fn lemma_classification<T: Numeric>(c: FizzOrBuzz<T>, i: int)
    requires
        classifies(c, i),
    ensures
        (c is FizzBuzz) == (i % 15 == 0),
        (c is Fizz) == (i % 3 == 0 && i % 5 != 0),
        (c is Buzz) == (i % 5 == 0 && i % 3 != 0),
        (c is Number) == (i % 3 != 0 && i % 5 != 0),
        c is Number ==> c->Number_0.value() == i,
{
    lemma_fifteen(i);
}

/// The text of one decimal digit.
pub open spec fn digit_text(d: int) -> Seq<char> {
    if d == 0 {
        "0"@
    } else if d == 1 {
        "1"@
    } else if d == 2 {
        "2"@
    } else if d == 3 {
        "3"@
    } else if d == 4 {
        "4"@
    } else if d == 5 {
        "5"@
    } else if d == 6 {
        "6"@
    } else if d == 7 {
        "7"@
    } else if d == 8 {
        "8"@
    } else {
        "9"@
    }
}

/// The decimal digits of a natural number, most significant first.
pub open spec fn digits(n: nat) -> Seq<char>
    decreases n,
{
    if n < 10 {
        digit_text(n as int)
    } else {
        digits(n / 10) + digit_text((n % 10) as int)
    }
}

/// The decimal text of an integer, with a leading minus sign when negative.
pub open spec fn decimal(v: int) -> Seq<char> {
    if v < 0 {
        "-"@ + digits((-v) as nat)
    } else {
        digits(v as nat)
    }
}

/// The text of a classification.
pub open spec fn text_of<T: Numeric>(c: FizzOrBuzz<T>) -> Seq<char> {
    match c {
        FizzOrBuzz::Fizz => "Fizz"@,
        FizzOrBuzz::Buzz => "Buzz"@,
        FizzOrBuzz::FizzBuzz => "FizzBuzz"@,
        FizzOrBuzz::Number(n) => decimal(n.value()),
    }
}

fn digit_str(d: u128) -> (r: &'static str)
    requires
        d < 10,
    ensures
        r@ == digit_text(d as int),
{
    if d == 0 {
        "0"
    } else if d == 1 {
        "1"
    } else if d == 2 {
        "2"
    } else if d == 3 {
        "3"
    } else if d == 4 {
        "4"
    } else if d == 5 {
        "5"
    } else if d == 6 {
        "6"
    } else if d == 7 {
        "7"
    } else if d == 8 {
        "8"
    } else {
        "9"
    }
}

fn push_digits(s: &mut String, n: u128)
    ensures
        final(s)@ == old(s)@ + digits(n as nat),
    decreases n,
{
    if n >= 10 {
        push_digits(s, n / 10);
    }
    s.append(digit_str(n % 10));
    proof {
        assert(final(s)@ =~= old(s)@ + digits(n as nat));
    }
}

/// The decimal text of an integer.
pub fn decimal_text(v: i128) -> (r: String)
    ensures
        r@ == decimal(v as int),
{
    if v < 0 {
        let mut s = String::from_str("-");
        let magnitude: u128 = (-(v + 1)) as u128 + 1;
        push_digits(&mut s, magnitude);
        s
    } else {
        let mut s = String::new();
        push_digits(&mut s, v as u128);
        proof {
            assert(s@ =~= decimal(v as int));
        }
        s
    }
}

impl<T: Numeric> FizzOrBuzz<T> {
    /// The text of this classification: a number in decimal, the others by
    /// their name.
    pub fn to_text(&self) -> (r: String)
        ensures
            r@ == text_of(*self),
    {
        match self {
            FizzOrBuzz::Fizz => String::from_str("Fizz"),
            FizzOrBuzz::Buzz => String::from_str("Buzz"),
            FizzOrBuzz::FizzBuzz => String::from_str("FizzBuzz"),
            FizzOrBuzz::Number(n) => decimal_text(n.widen()),
        }
    }
}

} // verus!
