//! The plain engine: a list of rules that borrow the password, and two rules
//! to put in it.

use crate::rules::run_rules;
use crate::weekday::{local_weekday, weekend_verdict};
use vstd::prelude::*;

verus! {

/// Runs every rule on `password`, in the order of `rules` and without stopping
/// at a failure, and returns the reasons of the rules that failed, in that order.
pub fn verify_password<F: Fn(&str) -> Result<(), String>>(
    password: &str,
    rules: Vec<F>,
) -> (errors: Vec<String>)
    requires
        crate::rules::rules_accept(rules@, password),
    ensures
        crate::rules::collected(crate::rules::rule_models(rules@), password@, errors.deep_view()),
{
    run_rules(&rules, password)
}

/// An engine that holds its rules in the order in which they were added.
pub struct Verifier<F> {
    pub rules: Vec<F>,
}

impl<F: Fn(&str) -> Result<(), String>> Verifier<F> {
    /// An engine without rules.
    pub fn new() -> (verifier: Self)
        ensures
            verifier.rules@ == Seq::<F>::empty(),
    {
        Self { rules: Vec::new() }
    }

    /// Adds `rule` behind the rules that the engine holds.
    pub fn add_rule(&mut self, rule: F)
        ensures
            final(self).rules@ == old(self).rules@.push(rule),
    {
        self.rules.push(rule);
    }

    /// Runs every rule of the engine on `password`, in the order in which they
    /// were added and without stopping at a failure, and returns the reasons of
    /// the rules that failed, in that order.
    pub fn verify(&self, password: &str) -> (errors: Vec<String>)
        requires
            crate::rules::rules_accept(self.rules@, password),
        ensures
            crate::rules::collected(
                crate::rules::rule_models(self.rules@),
                password@,
                errors.deep_view(),
            ),
    {
        run_rules(&self.rules, password)
    }
}

/// The lowercase equivalent of `text` as `str::to_lowercase` gives it.
pub uninterp spec fn lowercase_of(text: Seq<char>) -> Seq<char>;

/// The lowercase equivalent of `text`, by `str::to_lowercase`: a function of
/// the text alone, which follows the Unicode property `Lowercase`.
#[verifier::external_body]
fn to_lowercase(text: &str) -> (lowered: String)
    ensures
        lowered@ == lowercase_of(text@),
{
    text.to_lowercase()
}

/// What the upper case rule answers on `password`, whose lowercase equivalent is `lowered`.
pub open spec fn upper_case_outcome(password: Seq<char>, lowered: Seq<char>) -> Result<
    (),
    Seq<char>,
> {
    if lowered != password {
        Ok(())
    } else {
        Err("at least one upper case needed"@)
    }
}

/// The upper case rule, given the lowercase equivalent of the password: the
/// password passes when lowering changes it, and fails with "at least one
/// upper case needed" when it does not.
pub fn upper_case_verdict(password: &str, lowered: String) -> (verdict: Result<(), String>)
    ensures
        crate::rules::outcome_view(verdict) == upper_case_outcome(password@, lowered@),
{
    if lowered != password.to_owned() {
        Ok(())
    } else {
        Err("at least one upper case needed".to_owned())
    }
}

/// A rule that asks for an upper case letter: the password passes when its
/// lowercase equivalent differs from it.
pub fn upper_case_rule(password: &str) -> (verdict: Result<(), String>)
    ensures
        crate::rules::outcome_view(verdict) == upper_case_outcome(
            password@,
            lowercase_of(password@),
        ),
{
    upper_case_verdict(password, to_lowercase(password))
}

/// A rule that fails on Saturdays and Sundays of the local clock, whatever the
/// password: the verdict is that of the weekend check on some day.
pub fn weekend_rule(_password: &str) -> (verdict: Result<(), String>)
    ensures
        exists|day: crate::weekday::Weekday|
            crate::rules::outcome_view(verdict) == #[trigger] crate::weekday::weekend_outcome(day),
{
    weekend_verdict(local_weekday())
}

} // verus!
