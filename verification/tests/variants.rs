use fzbz::Answer::{Buzz, Fizz, FizzBuzz, Number};
use fzbz::{
    early_return_before_mod, mod_then_match, naive, only_using_mod,
    only_using_mod_with_early_return, single_string_scan, single_string_scan_early_fizzbuzz,
    Answer,
};

// Every check below is run once for each way of computing the answer.

fn check_low_numbers_are_numbers(fzbz_fn: fn(i32) -> Answer) {
    assert_eq!(fzbz_fn(1), Number(1));
    assert_eq!(fzbz_fn(2), Number(2));
    assert_eq!(fzbz_fn(3), Number(3));
    assert_eq!(fzbz_fn(4), Number(4));
}

fn check_multiples_of_five_are_buzz(fzbz_fn: fn(i32) -> Answer) {
    assert_eq!(fzbz_fn(5), Buzz);
    assert_eq!(fzbz_fn(10), Buzz);
    assert_eq!(fzbz_fn(15), Buzz);
    assert_eq!(fzbz_fn(100), Buzz);
}

fn check_multiples_of_seven_are_fizz(fzbz_fn: fn(i32) -> Answer) {
    assert_eq!(fzbz_fn(7), Fizz);
    assert_eq!(fzbz_fn(14), Fizz);
    assert_eq!(fzbz_fn(21), Fizz);
    assert_eq!(fzbz_fn(84), Fizz);
}

fn check_higher_numbers_between_fizzes_and_buzzes_are_numbers(fzbz_fn: fn(i32) -> Answer) {
    assert_eq!(fzbz_fn(6), Number(6));
    assert_eq!(fzbz_fn(8), Number(8));
    assert_eq!(fzbz_fn(9), Number(9));
    assert_eq!(fzbz_fn(11), Number(11));
    assert_eq!(fzbz_fn(12), Number(12));
    assert_eq!(fzbz_fn(13), Number(13));
    assert_eq!(fzbz_fn(16), Number(16));
}

fn check_multiples_of_both_are_fizzbuzz(fzbz_fn: fn(i32) -> Answer) {
    assert_eq!(fzbz_fn(35), FizzBuzz);
    assert_eq!(fzbz_fn(70), FizzBuzz);
    assert_eq!(fzbz_fn(105), FizzBuzz);
}

fn check_mentioning_five_makes_you_a_buzz(fzbz_fn: fn(i32) -> Answer) {
    assert_eq!(fzbz_fn(51), Buzz);
    assert_eq!(fzbz_fn(52), Buzz);
    assert_eq!(fzbz_fn(53), Buzz);
    assert_eq!(fzbz_fn(54), Buzz);
}

fn check_mentioning_seven_makes_you_a_fizz(fzbz_fn: fn(i32) -> Answer) {
    assert_eq!(fzbz_fn(17), Fizz);
    assert_eq!(fzbz_fn(27), Fizz);
    assert_eq!(fzbz_fn(71), Fizz);
}

fn check_all_combinations_of_fizz_and_buzz_make_fizzbuzz(fzbz_fn: fn(i32) -> Answer) {
    assert_eq!(fzbz_fn(70), FizzBuzz);
    assert_eq!(fzbz_fn(35), FizzBuzz);
    assert_eq!(fzbz_fn(56), FizzBuzz);
    assert_eq!(fzbz_fn(57), FizzBuzz);
    assert_eq!(fzbz_fn(570), FizzBuzz);
}

#[test]
fn low_numbers_are_numbers_using_naive() {
    check_low_numbers_are_numbers(naive);
}

#[test]
fn low_numbers_are_numbers_using_mod_then_match() {
    check_low_numbers_are_numbers(mod_then_match);
}

#[test]
fn low_numbers_are_numbers_using_early_return_before_mod() {
    check_low_numbers_are_numbers(early_return_before_mod);
}

#[test]
fn low_numbers_are_numbers_using_single_string_scan() {
    check_low_numbers_are_numbers(single_string_scan);
}

#[test]
fn low_numbers_are_numbers_using_single_string_scan_early_fizzbuzz() {
    check_low_numbers_are_numbers(single_string_scan_early_fizzbuzz);
}

#[test]
fn low_numbers_are_numbers_using_only_using_mod() {
    check_low_numbers_are_numbers(only_using_mod);
}

#[test]
fn low_numbers_are_numbers_using_only_using_mod_with_early_return() {
    check_low_numbers_are_numbers(only_using_mod_with_early_return);
}

#[test]
fn multiples_of_five_are_buzz_using_naive() {
    check_multiples_of_five_are_buzz(naive);
}

#[test]
fn multiples_of_five_are_buzz_using_mod_then_match() {
    check_multiples_of_five_are_buzz(mod_then_match);
}

#[test]
fn multiples_of_five_are_buzz_using_early_return_before_mod() {
    check_multiples_of_five_are_buzz(early_return_before_mod);
}

#[test]
fn multiples_of_five_are_buzz_using_single_string_scan() {
    check_multiples_of_five_are_buzz(single_string_scan);
}

#[test]
fn multiples_of_five_are_buzz_using_single_string_scan_early_fizzbuzz() {
    check_multiples_of_five_are_buzz(single_string_scan_early_fizzbuzz);
}

#[test]
fn multiples_of_five_are_buzz_using_only_using_mod() {
    check_multiples_of_five_are_buzz(only_using_mod);
}

#[test]
fn multiples_of_five_are_buzz_using_only_using_mod_with_early_return() {
    check_multiples_of_five_are_buzz(only_using_mod_with_early_return);
}

#[test]
fn multiples_of_seven_are_fizz_using_naive() {
    check_multiples_of_seven_are_fizz(naive);
}

#[test]
fn multiples_of_seven_are_fizz_using_mod_then_match() {
    check_multiples_of_seven_are_fizz(mod_then_match);
}

#[test]
fn multiples_of_seven_are_fizz_using_early_return_before_mod() {
    check_multiples_of_seven_are_fizz(early_return_before_mod);
}

#[test]
fn multiples_of_seven_are_fizz_using_single_string_scan() {
    check_multiples_of_seven_are_fizz(single_string_scan);
}

#[test]
fn multiples_of_seven_are_fizz_using_single_string_scan_early_fizzbuzz() {
    check_multiples_of_seven_are_fizz(single_string_scan_early_fizzbuzz);
}

#[test]
fn multiples_of_seven_are_fizz_using_only_using_mod() {
    check_multiples_of_seven_are_fizz(only_using_mod);
}

#[test]
fn multiples_of_seven_are_fizz_using_only_using_mod_with_early_return() {
    check_multiples_of_seven_are_fizz(only_using_mod_with_early_return);
}

#[test]
fn higher_numbers_between_fizzes_and_buzzes_are_numbers_using_naive() {
    check_higher_numbers_between_fizzes_and_buzzes_are_numbers(naive);
}

#[test]
fn higher_numbers_between_fizzes_and_buzzes_are_numbers_using_mod_then_match() {
    check_higher_numbers_between_fizzes_and_buzzes_are_numbers(mod_then_match);
}

#[test]
fn higher_numbers_between_fizzes_and_buzzes_are_numbers_using_early_return_before_mod() {
    check_higher_numbers_between_fizzes_and_buzzes_are_numbers(early_return_before_mod);
}

#[test]
fn higher_numbers_between_fizzes_and_buzzes_are_numbers_using_single_string_scan() {
    check_higher_numbers_between_fizzes_and_buzzes_are_numbers(single_string_scan);
}

#[test]
fn higher_numbers_between_fizzes_and_buzzes_are_numbers_using_single_string_scan_early_fizzbuzz() {
    check_higher_numbers_between_fizzes_and_buzzes_are_numbers(single_string_scan_early_fizzbuzz);
}

#[test]
fn higher_numbers_between_fizzes_and_buzzes_are_numbers_using_only_using_mod() {
    check_higher_numbers_between_fizzes_and_buzzes_are_numbers(only_using_mod);
}

#[test]
fn higher_numbers_between_fizzes_and_buzzes_are_numbers_using_only_using_mod_with_early_return() {
    check_higher_numbers_between_fizzes_and_buzzes_are_numbers(only_using_mod_with_early_return);
}

#[test]
fn multiples_of_both_are_fizzbuzz_using_naive() {
    check_multiples_of_both_are_fizzbuzz(naive);
}

#[test]
fn multiples_of_both_are_fizzbuzz_using_mod_then_match() {
    check_multiples_of_both_are_fizzbuzz(mod_then_match);
}

#[test]
fn multiples_of_both_are_fizzbuzz_using_early_return_before_mod() {
    check_multiples_of_both_are_fizzbuzz(early_return_before_mod);
}

#[test]
fn multiples_of_both_are_fizzbuzz_using_single_string_scan() {
    check_multiples_of_both_are_fizzbuzz(single_string_scan);
}

#[test]
fn multiples_of_both_are_fizzbuzz_using_single_string_scan_early_fizzbuzz() {
    check_multiples_of_both_are_fizzbuzz(single_string_scan_early_fizzbuzz);
}

#[test]
fn multiples_of_both_are_fizzbuzz_using_only_using_mod() {
    check_multiples_of_both_are_fizzbuzz(only_using_mod);
}

#[test]
fn multiples_of_both_are_fizzbuzz_using_only_using_mod_with_early_return() {
    check_multiples_of_both_are_fizzbuzz(only_using_mod_with_early_return);
}

#[test]
fn mentioning_five_makes_you_a_buzz_using_naive() {
    check_mentioning_five_makes_you_a_buzz(naive);
}

#[test]
fn mentioning_five_makes_you_a_buzz_using_mod_then_match() {
    check_mentioning_five_makes_you_a_buzz(mod_then_match);
}

#[test]
fn mentioning_five_makes_you_a_buzz_using_early_return_before_mod() {
    check_mentioning_five_makes_you_a_buzz(early_return_before_mod);
}

#[test]
fn mentioning_five_makes_you_a_buzz_using_single_string_scan() {
    check_mentioning_five_makes_you_a_buzz(single_string_scan);
}

#[test]
fn mentioning_five_makes_you_a_buzz_using_single_string_scan_early_fizzbuzz() {
    check_mentioning_five_makes_you_a_buzz(single_string_scan_early_fizzbuzz);
}

#[test]
fn mentioning_five_makes_you_a_buzz_using_only_using_mod() {
    check_mentioning_five_makes_you_a_buzz(only_using_mod);
}

#[test]
fn mentioning_five_makes_you_a_buzz_using_only_using_mod_with_early_return() {
    check_mentioning_five_makes_you_a_buzz(only_using_mod_with_early_return);
}

#[test]
fn mentioning_seven_makes_you_a_fizz_using_naive() {
    check_mentioning_seven_makes_you_a_fizz(naive);
}

#[test]
fn mentioning_seven_makes_you_a_fizz_using_mod_then_match() {
    check_mentioning_seven_makes_you_a_fizz(mod_then_match);
}

#[test]
fn mentioning_seven_makes_you_a_fizz_using_early_return_before_mod() {
    check_mentioning_seven_makes_you_a_fizz(early_return_before_mod);
}

#[test]
fn mentioning_seven_makes_you_a_fizz_using_single_string_scan() {
    check_mentioning_seven_makes_you_a_fizz(single_string_scan);
}

#[test]
fn mentioning_seven_makes_you_a_fizz_using_single_string_scan_early_fizzbuzz() {
    check_mentioning_seven_makes_you_a_fizz(single_string_scan_early_fizzbuzz);
}

#[test]
fn mentioning_seven_makes_you_a_fizz_using_only_using_mod() {
    check_mentioning_seven_makes_you_a_fizz(only_using_mod);
}

#[test]
fn mentioning_seven_makes_you_a_fizz_using_only_using_mod_with_early_return() {
    check_mentioning_seven_makes_you_a_fizz(only_using_mod_with_early_return);
}

#[test]
fn all_combinations_of_fizz_and_buzz_make_fizzbuzz_using_naive() {
    check_all_combinations_of_fizz_and_buzz_make_fizzbuzz(naive);
}

#[test]
fn all_combinations_of_fizz_and_buzz_make_fizzbuzz_using_mod_then_match() {
    check_all_combinations_of_fizz_and_buzz_make_fizzbuzz(mod_then_match);
}

#[test]
fn all_combinations_of_fizz_and_buzz_make_fizzbuzz_using_early_return_before_mod() {
    check_all_combinations_of_fizz_and_buzz_make_fizzbuzz(early_return_before_mod);
}

#[test]
fn all_combinations_of_fizz_and_buzz_make_fizzbuzz_using_single_string_scan() {
    check_all_combinations_of_fizz_and_buzz_make_fizzbuzz(single_string_scan);
}

#[test]
fn all_combinations_of_fizz_and_buzz_make_fizzbuzz_using_single_string_scan_early_fizzbuzz() {
    check_all_combinations_of_fizz_and_buzz_make_fizzbuzz(single_string_scan_early_fizzbuzz);
}

#[test]
fn all_combinations_of_fizz_and_buzz_make_fizzbuzz_using_only_using_mod() {
    check_all_combinations_of_fizz_and_buzz_make_fizzbuzz(only_using_mod);
}

#[test]
fn all_combinations_of_fizz_and_buzz_make_fizzbuzz_using_only_using_mod_with_early_return() {
    check_all_combinations_of_fizz_and_buzz_make_fizzbuzz(only_using_mod_with_early_return);
}
