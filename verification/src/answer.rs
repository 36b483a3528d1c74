use vstd::prelude::*;

verus! {

/// What the game says for one number.
#[derive(Debug, Clone, Copy, PartialEq, Eq, Structural)]
pub enum Answer {
    Buzz,
    Fizz,
    FizzBuzz,
    Number(i32),
}

/// The mathematical value of an [`Answer`]: the same four cases, with the
/// number carried as an unbounded integer.
pub ghost enum Outcome {
    Buzz,
    Fizz,
    FizzBuzz,
    Number(int),
}

impl View for Answer {
    type V = Outcome;

    open spec fn view(&self) -> Outcome {
        match *self {
            Answer::Buzz => Outcome::Buzz,
            Answer::Fizz => Outcome::Fizz,
            Answer::FizzBuzz => Outcome::FizzBuzz,
            Answer::Number(n) => Outcome::Number(n as int),
        }
    }
}

impl DeepView for Answer {
    type V = Outcome;

    open spec fn deep_view(&self) -> Outcome {
        self@
    }
}

} // verus!
