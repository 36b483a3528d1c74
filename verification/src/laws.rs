use crate::answer::Answer;
use crate::batch::classifies;
use crate::by_digits::{only_using_mod, only_using_mod_with_early_return};
use crate::by_text::{
    early_return_before_mod, mod_then_match, naive, single_string_scan,
    single_string_scan_early_fizzbuzz,
};
use crate::rules::outcome_of;
use vstd::prelude::*;

verus! {

/// Each of the seven variants is a classifier: it accepts every positive
/// number and answers it by the rule.
pub proof fn law_variants_classify()
    ensures
        classifies(naive),
        classifies(mod_then_match),
        classifies(early_return_before_mod),
        classifies(single_string_scan),
        classifies(single_string_scan_early_fizzbuzz),
        classifies(only_using_mod),
        classifies(only_using_mod_with_early_return),
{
}

/// Asked about the same positive number, all seven variants give the same
/// answer, and it is the one that the rule gives.
///
/// Each of the seven answers stands for whatever the variant named beside it
/// may return for `n`.
pub proof fn law_variants_agree(
    n: i32,
    from_naive: Answer,
    from_mod_then_match: Answer,
    from_early_return_before_mod: Answer,
    from_single_string_scan: Answer,
    from_single_string_scan_early_fizzbuzz: Answer,
    from_only_using_mod: Answer,
    from_only_using_mod_with_early_return: Answer,
)
    requires
        n >= 1,
        call_ensures(naive, (n,), from_naive),
        call_ensures(mod_then_match, (n,), from_mod_then_match),
        call_ensures(early_return_before_mod, (n,), from_early_return_before_mod),
        call_ensures(single_string_scan, (n,), from_single_string_scan),
        call_ensures(
            single_string_scan_early_fizzbuzz,
            (n,),
            from_single_string_scan_early_fizzbuzz,
        ),
        call_ensures(only_using_mod, (n,), from_only_using_mod),
        call_ensures(
            only_using_mod_with_early_return,
            (n,),
            from_only_using_mod_with_early_return,
        ),
    ensures
        from_naive@ == outcome_of(n as nat),
        from_mod_then_match == from_naive,
        from_early_return_before_mod == from_naive,
        from_single_string_scan == from_naive,
        from_single_string_scan_early_fizzbuzz == from_naive,
        from_only_using_mod == from_naive,
        from_only_using_mod_with_early_return == from_naive,
{
}

/// A classifier asked twice about the same positive number gives the same
/// answer both times: what it returns depends on the number alone.
pub proof fn law_answers_repeat<F: Fn(i32) -> Answer>(f: F, n: i32, first: Answer, second: Answer)
    requires
        classifies(f),
        n >= 1,
        call_ensures(f, (n,), first),
        call_ensures(f, (n,), second),
    ensures
        first == second,
{
}

} // verus!
