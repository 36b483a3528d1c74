use crate::answer::{Answer, Outcome};
use crate::rules::outcome_of;
use vstd::prelude::*;

verus! {

/// `f` is a classifier: it accepts every positive number, and whatever it
/// returns for one is the outcome that the rule gives.
pub open spec fn classifies<F: Fn(i32) -> Answer>(f: F) -> bool {
    &&& forall|n: i32| n >= 1 ==> call_requires(f, (n,))
    &&& forall|n: i32, a: Answer|
        n >= 1 && call_ensures(f, (n,), a) ==> a@ == outcome_of(n as nat)
}

/// The outcomes of the numbers 1 to `max` in rising order; empty when `max`
/// is below 1.
pub open spec fn outcomes_up_to(max: int) -> Seq<Outcome> {
    Seq::new(if max >= 1 { max as nat } else { 0 }, |i: int| outcome_of((i + 1) as nat))
}

/// Calls `fzbz_fn` on each number from 1 up to `max`, in rising order, and
/// returns what it answered, the answer for 1 first.
///
/// The vector is allocated once, with room for all `max` answers.
pub fn fizzbuzz_all(fzbz_fn: impl Fn(i32) -> Answer, max: i32) -> (answers: Vec<Answer>)
    requires
        forall|n: i32| 1 <= n <= max ==> call_requires(fzbz_fn, (n,)),
    ensures
        answers.len() == (if max >= 1 { max as int } else { 0 }),
        forall|i: int|
            0 <= i < answers.len() ==> call_ensures(fzbz_fn, ((i + 1) as i32,), #[trigger] answers[i]),
        classifies(fzbz_fn) ==> answers.deep_view() == outcomes_up_to(max as int),
{
    let room: usize = if max >= 1 { max as usize } else { 0 };
    let mut answers: Vec<Answer> = Vec::with_capacity(room);
    let mut n: i32 = 0;
    while n < max
        invariant
            0 <= n,
            n <= max || n == 0,
            answers.len() == n,
            forall|k: i32| 1 <= k <= max ==> call_requires(fzbz_fn, (k,)),
            forall|i: int|
                0 <= i < answers.len() ==> call_ensures(
                    fzbz_fn,
                    ((i + 1) as i32,),
                    #[trigger] answers[i],
                ),
        decreases max - n,
    {
        n = n + 1;
        let answer = fzbz_fn(n);
        answers.push(answer);
    }
    proof {
        if classifies(fzbz_fn) {
            let given = answers.deep_view();
            let wanted = outcomes_up_to(max as int);
            assert forall|i: int| 0 <= i < given.len() implies given[i] == wanted[i] by {
                assert(call_ensures(fzbz_fn, ((i + 1) as i32,), answers[i]));
            }
            assert(given =~= wanted);
        }
    }
    answers
}

} // verus!
