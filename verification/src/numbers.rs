//! Decimal notation.

use vstd::prelude::*;

verus! {

/// The character for the decimal digit `d`.
pub open spec fn digit(d: nat) -> char
    recommends
        d < 10,
{
    (48 + d) as u8 as char
}

/// `n` in decimal notation, without leading zeros.
pub open spec fn decimal(n: nat) -> Seq<char>
    decreases n,
{
    if n < 10 {
        seq![digit(n)]
    } else {
        decimal(n / 10).push(digit(n % 10))
    }
}

/// Writes `n` in decimal notation.
pub fn decimal_text(n: usize) -> (text: String)
    ensures
        text@ == decimal(n as nat),
{
    let mut digits: Vec<char> = Vec::new();
    let mut rest: usize = n / 10;
    digits.push((48u8 + (n % 10) as u8) as char);
    let ghost mut low: Seq<char> = seq![digit((n % 10) as nat)];
    while rest > 0
        invariant
            digits@.len() == low.len(),
            forall|i: int| 0 <= i < low.len() ==> digits@[i] == low[low.len() - 1 - i],
            decimal(n as nat) == if rest > 0 {
                decimal(rest as nat) + low
            } else {
                low
            },
        decreases rest,
    {
        let d = (48u8 + (rest % 10) as u8) as char;
        proof {
            let next: Seq<char> = seq![digit((rest % 10) as nat)] + low;
            if rest < 10 {
                assert(decimal(rest as nat) + low =~= next);
            } else {
                assert(decimal(rest as nat) + low =~= decimal((rest / 10) as nat) + next);
            }
            low = next;
        }
        digits.push(d);
        rest = rest / 10;
    }
    let mut text = String::new();
    let mut i: usize = digits.len();
    while i > 0
        invariant
            i <= digits@.len(),
            digits@.len() == low.len(),
            forall|j: int| 0 <= j < low.len() ==> digits@[j] == low[low.len() - 1 - j],
            text@ == low.take(low.len() - i),
        decreases i,
    {
        i -= 1;
        text.push(digits[i]);
        assert(text@ =~= low.take(low.len() - i));
    }
    assert(low.take(low.len() as int) =~= low);
    text
}

} // verus!
