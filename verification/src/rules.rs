//! Rules and what an engine collects from them.
//!
//! A rule is a function value that is handed an input and answers `Ok(())`
//! when the input passes, or `Err(reason)` when it does not. In contracts a
//! rule stands for the relation between an input and the answers it may give,
//! both taken as plain sequences of characters.

use vstd::prelude::*;

verus! {

/// The mathematical model of a rule: whether, handed the input, it may give the answer.
pub type RuleModel = spec_fn(Seq<char>, Result<(), Seq<char>>) -> bool;

/// An answer as plain data.
pub open spec fn outcome_view(answer: Result<(), String>) -> Result<(), Seq<char>> {
    match answer {
        Ok(_) => Ok(()),
        Err(reason) => Err(reason@),
    }
}

/// The reasons of the failures among `outcomes`, in the order of `outcomes`.
pub open spec fn failure_reasons(outcomes: Seq<Result<(), Seq<char>>>) -> Seq<Seq<char>>
    decreases outcomes.len(),
{
    if outcomes.len() == 0 {
        Seq::empty()
    } else {
        let earlier = failure_reasons(outcomes.drop_last());
        match outcomes.last() {
            Ok(_) => earlier,
            Err(reason) => earlier.push(reason),
        }
    }
}

/// How many of `outcomes` are failures.
pub open spec fn failing_count(outcomes: Seq<Result<(), Seq<char>>>) -> nat
    decreases outcomes.len(),
{
    if outcomes.len() == 0 {
        0
    } else if outcomes.last() is Err {
        failing_count(outcomes.drop_last()) + 1
    } else {
        failing_count(outcomes.drop_last())
    }
}

/// The model of a rule that borrows its input.
pub open spec fn rule_model<F: Fn(&str) -> Result<(), String>>(rule: F) -> RuleModel {
    |input: Seq<char>, outcome: Result<(), Seq<char>>|
        exists|text: &str, answer: Result<(), String>|
            text@ == input && #[trigger] call_ensures(rule, (text,), answer) && outcome_view(answer)
                == outcome
}

/// The models of a list of rules that borrow their input, in the order of the list.
pub open spec fn rule_models<F: Fn(&str) -> Result<(), String>>(rules: Seq<F>) -> Seq<RuleModel> {
    Seq::new(rules.len(), |i: int| rule_model(rules[i]))
}

/// Whether every rule in the list may be called on `password`.
pub open spec fn rules_accept<F: Fn(&str) -> Result<(), String>>(
    rules: Seq<F>,
    password: &str,
) -> bool {
    forall|i: int| 0 <= i < rules.len() ==> call_requires(#[trigger] rules[i], (password,))
}

/// Whether `outcomes` holds, rule by rule, an answer that the rule may give on `input`.
pub open spec fn answered(
    rules: Seq<RuleModel>,
    input: Seq<char>,
    outcomes: Seq<Result<(), Seq<char>>>,
) -> bool {
    &&& outcomes.len() == rules.len()
    &&& forall|i: int| 0 <= i < rules.len() ==> (#[trigger] rules[i])(input, outcomes[i])
}

/// Whether `reasons` is what running every rule on `input` once, in order, and
/// keeping the reason of each failure may give.
pub open spec fn collected(
    rules: Seq<RuleModel>,
    input: Seq<char>,
    reasons: Seq<Seq<char>>,
) -> bool {
    exists|outcomes: Seq<Result<(), Seq<char>>>| #[trigger]
        answered(rules, input, outcomes) && reasons == failure_reasons(outcomes)
}

/// Runs every rule on `password`, in order and without stopping at a failure,
/// and returns the reasons of the failures.
pub fn run_rules<F: Fn(&str) -> Result<(), String>>(
    rules: &Vec<F>,
    password: &str,
) -> (errors: Vec<String>)
    requires
        rules_accept(rules@, password),
    ensures
        collected(rule_models(rules@), password@, errors.deep_view()),
{
    let mut errors: Vec<String> = Vec::new();
    let ghost mut outcomes: Seq<Result<(), Seq<char>>> = Seq::empty();
    let mut i: usize = 0;
    while i < rules.len()
        invariant
            i <= rules.len(),
            rules_accept(rules@, password),
            answered(rule_models(rules@).take(i as int), password@, outcomes),
            errors.deep_view() == failure_reasons(outcomes),
        decreases rules.len() - i,
    {
        let answer = (rules[i])(password);
        let ghost earlier = outcomes;
        let ghost reasons = errors.deep_view();
        proof {
            outcomes = earlier.push(outcome_view(answer));
            assert(outcomes.drop_last() =~= earlier);
            assert(rule_models(rules@)[i as int](password@, outcome_view(answer)));
        }
        if let Err(error) = answer {
            errors.push(error);
            assert(errors.deep_view() =~= reasons.push(error@));
        }
        i += 1;
    }
    assert(rule_models(rules@).take(i as int) =~= rule_models(rules@));
    errors
}

/// The model of a rule that takes its input by value.
pub open spec fn owned_rule_model<F: Fn(String) -> Result<(), String>>(rule: F) -> RuleModel {
    |input: Seq<char>, outcome: Result<(), Seq<char>>|
        exists|text: String, answer: Result<(), String>|
            text@ == input && #[trigger] call_ensures(rule, (text,), answer) && outcome_view(answer)
                == outcome
}

/// The models of a list of rules that take their input by value, in the order of the list.
pub open spec fn owned_rule_models<F: Fn(String) -> Result<(), String>>(rules: Seq<F>) -> Seq<
    RuleModel,
> {
    Seq::new(rules.len(), |i: int| owned_rule_model(rules[i]))
}

/// Whether every rule in the list may be called on any string that reads `password`.
pub open spec fn owned_rules_accept<F: Fn(String) -> Result<(), String>>(
    rules: Seq<F>,
    password: Seq<char>,
) -> bool {
    forall|i: int, text: String|
        0 <= i < rules.len() && text@ == password ==> #[trigger] call_requires(rules[i], (text,))
}

/// Runs every rule on a copy of `password`, in order and without stopping at a
/// failure, and returns the reasons of the failures.
pub fn run_owned_rules<F: Fn(String) -> Result<(), String>>(
    rules: &Vec<F>,
    password: &str,
) -> (errors: Vec<String>)
    requires
        owned_rules_accept(rules@, password@),
    ensures
        collected(owned_rule_models(rules@), password@, errors.deep_view()),
{
    let mut errors: Vec<String> = Vec::new();
    let ghost mut outcomes: Seq<Result<(), Seq<char>>> = Seq::empty();
    let mut i: usize = 0;
    while i < rules.len()
        invariant
            i <= rules.len(),
            owned_rules_accept(rules@, password@),
            answered(owned_rule_models(rules@).take(i as int), password@, outcomes),
            errors.deep_view() == failure_reasons(outcomes),
        decreases rules.len() - i,
    {
        let text = password.to_owned();
        let answer = (rules[i])(text);
        let ghost earlier = outcomes;
        let ghost reasons = errors.deep_view();
        proof {
            outcomes = earlier.push(outcome_view(answer));
            assert(outcomes.drop_last() =~= earlier);
            assert(owned_rule_models(rules@)[i as int](password@, outcome_view(answer)));
        }
        if let Err(error) = answer {
            errors.push(error);
            assert(errors.deep_view() =~= reasons.push(error@));
        }
        i += 1;
    }
    assert(owned_rule_models(rules@).take(i as int) =~= owned_rule_models(rules@));
    errors
}

/// The notice that a logger is told about a run that collected `reasons`.
pub open spec fn verdict_notice(reasons: Seq<Seq<char>>) -> Seq<char> {
    if reasons.len() == 0 {
        "PASSED"@
    } else {
        "FAILED"@
    }
}

/// The notice for a run that returned `errors`: "PASSED" when there is none, else "FAILED".
pub fn notice_for(errors: &Vec<String>) -> (notice: &'static str)
    ensures
        notice@ == verdict_notice(errors.deep_view()),
{
    if errors.len() == 0 {
        "PASSED"
    } else {
        "FAILED"
    }
}

/// Whether the rule passes on `input`, whichever answer it gives.
pub open spec fn passes(rule: RuleModel, input: Seq<char>) -> bool {
    forall|outcome: Result<(), Seq<char>>| #[trigger] rule(input, outcome) ==> outcome is Ok
}

/// Whether the rule fails on `input`, whichever answer it gives.
pub open spec fn fails(rule: RuleModel, input: Seq<char>) -> bool {
    forall|outcome: Result<(), Seq<char>>| #[trigger] rule(input, outcome) ==> outcome is Err
}

/// Whether the rule, handed `input`, gives one answer only.
pub open spec fn single_valued(rule: RuleModel, input: Seq<char>) -> bool {
    forall|one: Result<(), Seq<char>>, other: Result<(), Seq<char>>|
        #[trigger] rule(input, one) && #[trigger] rule(input, other) ==> one == other
}

/// Without a failure among the outcomes there is no reason.
pub proof fn lemma_no_failure_no_reason(outcomes: Seq<Result<(), Seq<char>>>)
    requires
        forall|i: int| 0 <= i < outcomes.len() ==> outcomes[i] is Ok,
    ensures
        failure_reasons(outcomes) == Seq::<Seq<char>>::empty(),
    decreases outcomes.len(),
{
    if outcomes.len() > 0 {
        lemma_no_failure_no_reason(outcomes.drop_last());
    }
}

/// There are as many reasons as failures.
pub proof fn lemma_reasons_counted(outcomes: Seq<Result<(), Seq<char>>>)
    ensures
        failure_reasons(outcomes).len() == failing_count(outcomes),
    decreases outcomes.len(),
{
    if outcomes.len() > 0 {
        lemma_reasons_counted(outcomes.drop_last());
    }
}

/// One failure among the outcomes makes the count positive.
pub proof fn lemma_failure_counted(outcomes: Seq<Result<(), Seq<char>>>, at: int)
    requires
        0 <= at < outcomes.len(),
        outcomes[at] is Err,
    ensures
        failing_count(outcomes) > 0,
    decreases outcomes.len(),
{
    if at < outcomes.len() - 1 {
        lemma_failure_counted(outcomes.drop_last(), at);
    }
}

/// The reasons stand in the order of the outcomes: the returned positions rise,
/// each holds the failure whose reason stands at that place, and no failure is
/// left out.
pub proof fn lemma_reasons_in_order(outcomes: Seq<Result<(), Seq<char>>>) -> (positions: Seq<int>)
    ensures
        positions.len() == failure_reasons(outcomes).len(),
        forall|k: int|
            0 <= k < positions.len() ==> 0 <= #[trigger] positions[k] < outcomes.len()
                && outcomes[positions[k]] == Err::<(), Seq<char>>(failure_reasons(outcomes)[k]),
        forall|j: int, k: int|
            0 <= j < k < positions.len() ==> #[trigger] positions[j] < #[trigger] positions[k],
        forall|i: int|
            0 <= i < outcomes.len() && #[trigger] outcomes[i] is Err ==> positions.contains(i),
    decreases outcomes.len(),
{
    if outcomes.len() == 0 {
        Seq::empty()
    } else {
        let earlier = lemma_reasons_in_order(outcomes.drop_last());
        let last: int = outcomes.len() - 1;
        let positions = if outcomes.last() is Err {
            earlier.push(last)
        } else {
            earlier
        };
        assert forall|i: int|
            0 <= i < outcomes.len() && #[trigger] outcomes[i] is Err implies positions.contains(
            i,
        ) by {
            if i < last {
                assert(outcomes.drop_last()[i] is Err);
                let k: int = choose|k: int| 0 <= k < earlier.len() && earlier[k] == i;
                assert(positions[k] == i);
            } else {
                assert(positions[positions.len() - 1] == i);
            }
        }
        positions
    }
}

/// The two notices are told apart.
pub proof fn lemma_notices_differ()
    ensures
        "PASSED"@ != "FAILED"@,
{
    reveal_strlit("PASSED");
    reveal_strlit("FAILED");
    assert("PASSED"@[0] != "FAILED"@[0]);
}

/// When every rule in the list passes on the input, the run collects no reason
/// and the notice is "PASSED", not "FAILED".
pub proof fn lemma_all_pass(rules: Seq<RuleModel>, input: Seq<char>, reasons: Seq<Seq<char>>)
    requires
        collected(rules, input, reasons),
        forall|i: int| 0 <= i < rules.len() ==> passes(#[trigger] rules[i], input),
    ensures
        reasons == Seq::<Seq<char>>::empty(),
        verdict_notice(reasons) == "PASSED"@,
        verdict_notice(reasons) != "FAILED"@,
{
    lemma_notices_differ();
    let outcomes = choose|outcomes: Seq<Result<(), Seq<char>>>| #[trigger]
        answered(rules, input, outcomes) && reasons == failure_reasons(outcomes);
    assert forall|i: int| 0 <= i < outcomes.len() implies outcomes[i] is Ok by {
        assert(passes(rules[i], input));
    }
    lemma_no_failure_no_reason(outcomes);
}

/// When a rule in the list fails on the input, whichever answer it gives, the
/// run collects at least one reason and the notice is "FAILED", not "PASSED".
pub proof fn lemma_some_fail(
    rules: Seq<RuleModel>,
    input: Seq<char>,
    reasons: Seq<Seq<char>>,
    at: int,
)
    requires
        collected(rules, input, reasons),
        0 <= at < rules.len(),
        fails(rules[at], input),
    ensures
        reasons.len() > 0,
        verdict_notice(reasons) == "FAILED"@,
        verdict_notice(reasons) != "PASSED"@,
{
    lemma_notices_differ();
    let outcomes = choose|outcomes: Seq<Result<(), Seq<char>>>| #[trigger]
        answered(rules, input, outcomes) && reasons == failure_reasons(outcomes);
    assert(rules[at](input, outcomes[at]));
    lemma_failure_counted(outcomes, at);
    lemma_reasons_counted(outcomes);
}

/// When each rule in the list gives one answer only on the input, these answers
/// being `outcomes`, and at least one of them is a failure, the run collects the
/// reasons of the failures in the order of the list, and the notice is
/// "FAILED", not "PASSED". There are as many reasons as failing rules, at least one; the
/// returned positions, which rise, name for each reason the rule that gave it,
/// and leave no failing rule out.
pub proof fn lemma_failures_collected(
    rules: Seq<RuleModel>,
    input: Seq<char>,
    outcomes: Seq<Result<(), Seq<char>>>,
    reasons: Seq<Seq<char>>,
) -> (positions: Seq<int>)
    requires
        collected(rules, input, reasons),
        answered(rules, input, outcomes),
        forall|i: int| 0 <= i < rules.len() ==> single_valued(#[trigger] rules[i], input),
        exists|i: int| 0 <= i < outcomes.len() && outcomes[i] is Err,
    ensures
        reasons == failure_reasons(outcomes),
        reasons.len() == failing_count(outcomes),
        reasons.len() > 0,
        verdict_notice(reasons) == "FAILED"@,
        verdict_notice(reasons) != "PASSED"@,
        positions.len() == reasons.len(),
        forall|k: int|
            0 <= k < positions.len() ==> 0 <= #[trigger] positions[k] < rules.len()
                && outcomes[positions[k]] == Err::<(), Seq<char>>(reasons[k]),
        forall|j: int, k: int|
            0 <= j < k < positions.len() ==> #[trigger] positions[j] < #[trigger] positions[k],
        forall|i: int|
            0 <= i < rules.len() && #[trigger] outcomes[i] is Err ==> positions.contains(i),
{
    lemma_notices_differ();
    let seen = choose|seen: Seq<Result<(), Seq<char>>>| #[trigger]
        answered(rules, input, seen) && reasons == failure_reasons(seen);
    assert forall|i: int| 0 <= i < outcomes.len() implies seen[i] == outcomes[i] by {
        assert(single_valued(rules[i], input));
    }
    assert(seen =~= outcomes);
    lemma_reasons_counted(outcomes);
    let at: int = choose|i: int| 0 <= i < outcomes.len() && outcomes[i] is Err;
    lemma_failure_counted(outcomes, at);
    lemma_reasons_in_order(outcomes)
}

/// When each rule in the list gives one answer only on the input, two runs on
/// that input collect the same reasons.
pub proof fn lemma_runs_agree(
    rules: Seq<RuleModel>,
    input: Seq<char>,
    first: Seq<Seq<char>>,
    second: Seq<Seq<char>>,
)
    requires
        collected(rules, input, first),
        collected(rules, input, second),
        forall|i: int| 0 <= i < rules.len() ==> single_valued(#[trigger] rules[i], input),
    ensures
        first == second,
{
    let one = choose|seen: Seq<Result<(), Seq<char>>>| #[trigger]
        answered(rules, input, seen) && first == failure_reasons(seen);
    let other = choose|seen: Seq<Result<(), Seq<char>>>| #[trigger]
        answered(rules, input, seen) && second == failure_reasons(seen);
    assert forall|i: int| 0 <= i < one.len() implies one[i] == other[i] by {
        assert(single_valued(rules[i], input));
    }
    assert(one =~= other);
}

} // verus!
