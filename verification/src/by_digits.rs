use crate::answer::Answer;
use crate::rules::{lemma_mentions_step, mentions, outcome_of};
use vstd::prelude::*;

verus! {

/// Looks for the digits 5 and 7 in `n` by peeling decimal digits off its
/// right end, one division by ten at a time, until nothing is left.
///
/// A number below 1 has no digits to peel, so neither is found.
pub fn test_for_fives_and_sevens(n: i32) -> (found: (bool, bool))
    ensures
        found.0 == (n >= 1 && mentions(n as nat, 5)),
        found.1 == (n >= 1 && mentions(n as nat, 7)),
{
    let mut rest: u32 = if n > 0 { n as u32 } else { 0 };
    let mut five = false;
    let mut seven = false;

    while rest > 0
        invariant
            n < 1 ==> rest == 0,
            (n >= 1 && mentions(n as nat, 5)) == (five || (rest >= 1 && mentions(rest as nat, 5))),
            (n >= 1 && mentions(n as nat, 7)) == (seven || (rest >= 1 && mentions(rest as nat, 7))),
        decreases rest,
    {
        proof {
            lemma_mentions_step(rest as nat, 5);
            lemma_mentions_step(rest as nat, 7);
        }
        let digit: u32 = rest % 10;

        match digit {
            5 => five = true,
            7 => seven = true,
            _ => {},
        };

        rest /= 10;
    }

    (five, seven)
}

/// Classifies `n` without ever writing it out as text: the digits come from
/// [`test_for_fives_and_sevens`].
pub fn only_using_mod(n: i32) -> (answer: Answer)
    requires
        n >= 1,
    ensures
        answer@ == outcome_of(n as nat),
{
    let (buzzy, fizzy) = test_for_fives_and_sevens(n);

    let m: u32 = n as u32;
    let buzzy = buzzy || m % 5 == 0;
    let fizzy = fizzy || m % 7 == 0;

    match (buzzy, fizzy) {
        (true, true) => Answer::FizzBuzz,
        (true, _) => Answer::Buzz,
        (_, true) => Answer::Fizz,
        _ => Answer::Number(n),
    }
}

/// Classifies `n` like [`only_using_mod`], with the digits taken from
/// [`test_for_fives_and_sevens_with_early_return`].
pub fn only_using_mod_with_early_return(n: i32) -> (answer: Answer)
    requires
        n >= 1,
    ensures
        answer@ == outcome_of(n as nat),
{
    let (buzzy, fizzy) = test_for_fives_and_sevens_with_early_return(n);

    let m: u32 = n as u32;
    let buzzy = buzzy || m % 5 == 0;
    let fizzy = fizzy || m % 7 == 0;

    match (buzzy, fizzy) {
        (true, true) => Answer::FizzBuzz,
        (true, _) => Answer::Buzz,
        (_, true) => Answer::Fizz,
        _ => Answer::Number(n),
    }
}

/// Looks for the digits 5 and 7 in `n` like [`test_for_fives_and_sevens`],
/// but stops peeling as soon as both have been found.
///
/// Stopping early does not change what is reported: digits that were not
/// looked at could only confirm what is already known.
pub fn test_for_fives_and_sevens_with_early_return(n: i32) -> (found: (bool, bool))
    ensures
        found.0 == (n >= 1 && mentions(n as nat, 5)),
        found.1 == (n >= 1 && mentions(n as nat, 7)),
{
    let mut rest: u32 = if n > 0 { n as u32 } else { 0 };
    let mut five = false;
    let mut seven = false;

    while rest > 0
        invariant
            n < 1 ==> rest == 0,
            (n >= 1 && mentions(n as nat, 5)) == (five || (rest >= 1 && mentions(rest as nat, 5))),
            (n >= 1 && mentions(n as nat, 7)) == (seven || (rest >= 1 && mentions(rest as nat, 7))),
        decreases rest,
    {
        proof {
            lemma_mentions_step(rest as nat, 5);
            lemma_mentions_step(rest as nat, 7);
        }
        let digit: u32 = rest % 10;

        match digit {
            5 => {
                five = true;
                if seven {
                    return (true, true);
                }
            },
            7 => {
                seven = true;
                if five {
                    return (true, true);
                }
            },
            _ => {},
        };

        rest /= 10;
    }

    (five, seven)
}

} // verus!
