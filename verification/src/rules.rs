use crate::answer::Outcome;
use vstd::prelude::*;

verus! {

/// The decimal digits of `n`, most significant first. Zero has the single
/// digit 0.
pub open spec fn digits(n: nat) -> Seq<nat>
    decreases n,
{
    if n < 10 {
        seq![n]
    } else {
        digits(n / 10).push(n % 10)
    }
}

/// Whether the digit `d` occurs in the decimal form of `n`.
pub open spec fn mentions(n: nat, d: nat) -> bool {
    digits(n).contains(d)
}

/// A number is buzzy when 5 divides it or it is written with a 5.
pub open spec fn is_buzzy(n: nat) -> bool {
    n % 5 == 0 || mentions(n, 5)
}

/// A number is fizzy when 7 divides it or it is written with a 7.
pub open spec fn is_fizzy(n: nat) -> bool {
    n % 7 == 0 || mentions(n, 7)
}

/// The outcome that two already decided conditions give for `n`.
pub open spec fn outcome_from(buzzy: bool, fizzy: bool, n: int) -> Outcome {
    if buzzy && fizzy {
        Outcome::FizzBuzz
    } else if buzzy {
        Outcome::Buzz
    } else if fizzy {
        Outcome::Fizz
    } else {
        Outcome::Number(n)
    }
}

/// The rule of the game for a positive number.
pub open spec fn outcome_of(n: nat) -> Outcome {
    outcome_from(is_buzzy(n), is_fizzy(n), n as int)
}

/// Every entry of `digits(n)` is a single decimal digit.
pub proof fn lemma_digits_are_decimal(n: nat)
    ensures
        digits(n).len() >= 1,
        forall|i: int| 0 <= i < digits(n).len() ==> #[trigger] digits(n)[i] < 10,
    decreases n,
{
    if n >= 10 {
        lemma_digits_are_decimal(n / 10);
    }
}

/// Peeling the last digit: `d` occurs in `n` exactly when it is the last
/// digit of `n` or occurs in what is left after dropping that digit.
pub proof fn lemma_mentions_step(n: nat, d: nat)
    ensures
        mentions(n, d) <==> n % 10 == d || (n >= 10 && mentions(n / 10, d)),
{
    if n < 10 {
        assert(digits(n) =~= seq![n]);
        assert(digits(n)[0] == n);
    } else {
        let front = digits(n / 10);
        let all = digits(n);
        assert(all =~= front.push(n % 10));
        if front.contains(d) {
            let i = choose|i: int| 0 <= i < front.len() && front[i] == d;
            assert(all[i] == d);
        }
        if n % 10 == d {
            assert(all[front.len() as int] == d);
        }
    }
}

} // verus!
