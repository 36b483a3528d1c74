//! A game of FizzBuzz with its own rule: a number is Buzz when 5 divides it or
//! a 5 is written in it, Fizz when 7 divides it or a 7 is written in it,
//! FizzBuzz when it is both, and itself otherwise.
//!
//! The rule is stated once, as a specification, and seven ways of computing
//! it are each proved to follow it.

pub mod answer;
pub mod batch;
pub mod by_digits;
pub mod by_text;
pub mod counting;
pub mod decimal;
pub mod laws;
pub mod rules;

pub use answer::Answer;
pub use batch::fizzbuzz_all;
pub use by_digits::{
    only_using_mod, only_using_mod_with_early_return, test_for_fives_and_sevens,
    test_for_fives_and_sevens_with_early_return,
};
pub use by_text::{
    early_return_before_mod, mod_then_match, naive, single_string_scan,
    single_string_scan_early_fizzbuzz,
};
pub use counting::{tally, Tally};
