use crate::answer::Answer;
use vstd::prelude::*;

verus! {

/// How many answers of each kind a run has given.
#[derive(Debug, Clone, Copy, PartialEq, Eq, Structural)]
pub struct Tally {
    pub buzz: usize,
    pub fizz: usize,
    pub fizzbuzz: usize,
    pub number: usize,
}

/// The `Buzz` answers among `answers`.
pub open spec fn buzzes(answers: Seq<Answer>) -> Seq<Answer> {
    answers.filter(|a: Answer| a is Buzz)
}

/// The `Fizz` answers among `answers`.
pub open spec fn fizzes(answers: Seq<Answer>) -> Seq<Answer> {
    answers.filter(|a: Answer| a is Fizz)
}

/// The `FizzBuzz` answers among `answers`.
pub open spec fn fizzbuzzes(answers: Seq<Answer>) -> Seq<Answer> {
    answers.filter(|a: Answer| a is FizzBuzz)
}

/// The answers among `answers` that are plain numbers.
pub open spec fn numbers(answers: Seq<Answer>) -> Seq<Answer> {
    answers.filter(|a: Answer| a is Number)
}

/// Adding one answer at the end adds it to the answers of its own kind and to
/// no other.
pub proof fn lemma_count_push(answers: Seq<Answer>, last: Answer)
    ensures
        buzzes(answers.push(last)).len() == buzzes(answers).len() + (if last is Buzz {
            1nat
        } else {
            0nat
        }),
        fizzes(answers.push(last)).len() == fizzes(answers).len() + (if last is Fizz {
            1nat
        } else {
            0nat
        }),
        fizzbuzzes(answers.push(last)).len() == fizzbuzzes(answers).len() + (if last is FizzBuzz {
            1nat
        } else {
            0nat
        }),
        numbers(answers.push(last)).len() == numbers(answers).len() + (if last is Number {
            1nat
        } else {
            0nat
        }),
{
    reveal(Seq::filter);
    assert(answers.push(last).drop_last() =~= answers);
}

/// Every answer is of exactly one kind, so the four counts add up to the
/// number of answers.
pub proof fn lemma_counts_add_up(answers: Seq<Answer>)
    ensures
        buzzes(answers).len() + fizzes(answers).len() + fizzbuzzes(answers).len() + numbers(
            answers,
        ).len() == answers.len(),
    decreases answers.len(),
{
    if answers.len() == 0 {
        reveal(Seq::filter);
    } else {
        lemma_counts_add_up(answers.drop_last());
        lemma_count_push(answers.drop_last(), answers.last());
        assert(answers.drop_last().push(answers.last()) =~= answers);
    }
}

/// Counts the answers of each kind.
pub fn tally(answers: &Vec<Answer>) -> (counts: Tally)
    ensures
        counts.buzz == buzzes(answers@).len(),
        counts.fizz == fizzes(answers@).len(),
        counts.fizzbuzz == fizzbuzzes(answers@).len(),
        counts.number == numbers(answers@).len(),
        counts.buzz + counts.fizz + counts.fizzbuzz + counts.number == answers.len(),
{
    let mut counts = Tally { buzz: 0, fizz: 0, fizzbuzz: 0, number: 0 };
    let mut i: usize = 0;
    proof {
        reveal(Seq::filter);
        assert(answers@.take(0) =~= Seq::<Answer>::empty());
    }
    while i < answers.len()
        invariant
            i <= answers.len(),
            counts.buzz == buzzes(answers@.take(i as int)).len(),
            counts.fizz == fizzes(answers@.take(i as int)).len(),
            counts.fizzbuzz == fizzbuzzes(answers@.take(i as int)).len(),
            counts.number == numbers(answers@.take(i as int)).len(),
        decreases answers.len() - i,
    {
        proof {
            let seen = answers@.take(i as int);
            lemma_count_push(seen, answers[i as int]);
            lemma_counts_add_up(seen);
            assert(seen.push(answers[i as int]) =~= answers@.take(i + 1));
        }
        match answers[i] {
            Answer::Buzz => counts.buzz += 1,
            Answer::Fizz => counts.fizz += 1,
            Answer::FizzBuzz => counts.fizzbuzz += 1,
            Answer::Number(_) => counts.number += 1,
        }
        i += 1;
    }
    proof {
        assert(answers@.take(answers.len() as int) =~= answers@);
        lemma_counts_add_up(answers@);
    }
    counts
}

} // verus!
