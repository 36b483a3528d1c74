use crate::answer::Answer;
use crate::decimal::{decimal_text, has_char, lemma_text_mentions, to_decimal};
use crate::rules::{mentions, outcome_of};
use vstd::prelude::*;

verus! {

/// In the decimal text of `n` a '5' is written exactly when the digit 5
/// occurs in `n`, and a '7' exactly when the digit 7 does.
proof fn lemma_reading(n: nat)
    ensures
        decimal_text(n as int).contains('5') == mentions(n, 5),
        decimal_text(n as int).contains('7') == mentions(n, 7),
{
    lemma_text_mentions(n, 5);
    lemma_text_mentions(n, 7);
}

/// Scanning one character further: `c` is among the first `i + 1` characters
/// exactly when it is among the first `i` or is the one at `i`.
proof fn lemma_scan_step(text: Seq<char>, i: int, c: char)
    requires
        0 <= i < text.len(),
    ensures
        text.take(i + 1).contains(c) <==> text.take(i).contains(c) || text[i] == c,
{
    let shorter = text.take(i);
    let longer = text.take(i + 1);
    if shorter.contains(c) {
        let j = choose|j: int| 0 <= j < shorter.len() && shorter[j] == c;
        assert(longer[j] == c);
    }
    if text[i] == c {
        assert(longer[i] == c);
    }
    if longer.contains(c) {
        let j = choose|j: int| 0 <= j < longer.len() && longer[j] == c;
        if j < i {
            assert(shorter[j] == c);
        }
    }
}

/// What a scan has met in the first `i` characters is in the whole text.
proof fn lemma_scanned_is_present(text: Seq<char>, i: int, c: char)
    requires
        0 <= i <= text.len(),
    ensures
        text.take(i).contains(c) ==> text.contains(c),
{
    let seen = text.take(i);
    if seen.contains(c) {
        let j = choose|j: int| 0 <= j < seen.len() && seen[j] == c;
        assert(text[j] == c);
    }
}

/// Classifies `n` in the plainest way: every branch tests both conditions
/// again from scratch.
pub fn naive(n: i32) -> (answer: Answer)
    requires
        n >= 1,
    ensures
        answer@ == outcome_of(n as nat),
{
    let n_str = to_decimal(n);
    let m: u32 = n as u32;
    proof {
        lemma_reading(n as nat);
    }

    if (m % 5 == 0 || has_char(n_str.as_str(), '5')) && (m % 7 == 0 || has_char(
        n_str.as_str(),
        '7',
    )) {
        Answer::FizzBuzz
    } else if m % 5 == 0 || has_char(n_str.as_str(), '5') {
        Answer::Buzz
    } else if m % 7 == 0 || has_char(n_str.as_str(), '7') {
        Answer::Fizz
    } else {
        Answer::Number(n)
    }
}

/// Classifies `n` by deciding each condition once, then matching on the pair.
pub fn mod_then_match(n: i32) -> (answer: Answer)
    requires
        n >= 1,
    ensures
        answer@ == outcome_of(n as nat),
{
    let n_str = to_decimal(n);
    let m: u32 = n as u32;
    proof {
        lemma_reading(n as nat);
    }

    let buzzy = m % 5 == 0 || has_char(n_str.as_str(), '5');
    let fizzy = m % 7 == 0 || has_char(n_str.as_str(), '7');

    match (buzzy, fizzy) {
        (true, true) => Answer::FizzBuzz,
        (true, _) => Answer::Buzz,
        (_, true) => Answer::Fizz,
        _ => Answer::Number(n),
    }
}

/// Classifies `n` by looking at its text first: when both a '5' and a '7'
/// are written in it, the answer is given before any division is made.
pub fn early_return_before_mod(n: i32) -> (answer: Answer)
    requires
        n >= 1,
    ensures
        answer@ == outcome_of(n as nat),
{
    let n_str = to_decimal(n);
    let m: u32 = n as u32;
    proof {
        lemma_reading(n as nat);
    }

    let buzzy = has_char(n_str.as_str(), '5');
    let fizzy = has_char(n_str.as_str(), '7');

    if buzzy && fizzy {
        return Answer::FizzBuzz;
    }

    let buzzy = buzzy || m % 5 == 0;
    let fizzy = fizzy || m % 7 == 0;

    match (buzzy, fizzy) {
        (true, true) => Answer::FizzBuzz,
        (true, _) => Answer::Buzz,
        (_, true) => Answer::Fizz,
        _ => Answer::Number(n),
    }
}

/// Classifies `n` by scanning its text once, noting a '5' and a '7' on the
/// way, before any division.
pub fn single_string_scan(n: i32) -> (answer: Answer)
    requires
        n >= 1,
    ensures
        answer@ == outcome_of(n as nat),
{
    let n_str = to_decimal(n);
    let m: u32 = n as u32;
    proof {
        lemma_reading(n as nat);
    }

    let mut buzzy = false;
    let mut fizzy = false;

    for c in scan: n_str.as_str().chars()
        invariant
            scan.seq() == n_str@,
            buzzy == n_str@.take(scan.index()).contains('5'),
            fizzy == n_str@.take(scan.index()).contains('7'),
    {
        proof {
            lemma_scan_step(n_str@, scan.index(), '5');
            lemma_scan_step(n_str@, scan.index(), '7');
        }
        if c == '5' {
            buzzy = true;
        } else if c == '7' {
            fizzy = true;
        }
    }

    assert(n_str@.take(n_str@.len() as int) == n_str@);
    let buzzy = buzzy || m % 5 == 0;
    let fizzy = fizzy || m % 7 == 0;

    match (buzzy, fizzy) {
        (true, true) => Answer::FizzBuzz,
        (true, _) => Answer::Buzz,
        (_, true) => Answer::Fizz,
        _ => Answer::Number(n),
    }
}

/// Classifies `n` like [`single_string_scan`], but leaves the scan, and skips
/// the divisions, as soon as both a '5' and a '7' have been seen.
pub fn single_string_scan_early_fizzbuzz(n: i32) -> (answer: Answer)
    requires
        n >= 1,
    ensures
        answer@ == outcome_of(n as nat),
{
    let n_str = to_decimal(n);
    let m: u32 = n as u32;
    proof {
        lemma_reading(n as nat);
    }

    let mut buzzy = false;
    let mut fizzy = false;

    for c in scan: n_str.as_str().chars()
        invariant
            n >= 1,
            n_str@.contains('5') == mentions(n as nat, 5),
            n_str@.contains('7') == mentions(n as nat, 7),
            scan.seq() == n_str@,
            buzzy == n_str@.take(scan.index()).contains('5'),
            fizzy == n_str@.take(scan.index()).contains('7'),
    {
        proof {
            lemma_scan_step(n_str@, scan.index(), '5');
            lemma_scan_step(n_str@, scan.index(), '7');
            lemma_scanned_is_present(n_str@, scan.index() + 1, '5');
            lemma_scanned_is_present(n_str@, scan.index() + 1, '7');
        }
        if c == '5' {
            buzzy = true;
            if fizzy {
                return Answer::FizzBuzz;
            }
        } else if c == '7' {
            fizzy = true;
            if buzzy {
                return Answer::FizzBuzz;
            }
        }
    }

    assert(n_str@.take(n_str@.len() as int) == n_str@);
    if buzzy && fizzy {
        return Answer::FizzBuzz;
    }

    let buzzy = buzzy || m % 5 == 0;
    let fizzy = fizzy || m % 7 == 0;

    match (buzzy, fizzy) {
        (true, true) => Answer::FizzBuzz,
        (true, _) => Answer::Buzz,
        (_, true) => Answer::Fizz,
        _ => Answer::Number(n),
    }
}

} // verus!
