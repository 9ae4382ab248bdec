//! The engine that consults a time provider first: on a Saturday or a Sunday
//! it runs no rule and returns the one reason "It's the weekend!".

use crate::rules::{run_owned_rules, RuleModel};
use crate::weekday::{local_weekday, Weekday};
use vstd::prelude::*;

verus! {

/// A source of the current day of the week.
pub trait TimeProvider {
    /// Whether the provider may report `day` when it is asked. Unless a
    /// provider says more of itself, it may report any day.
    open spec fn may_report(&self, day: Weekday) -> bool {
        true
    }

    /// The current day of the week.
    fn get_day(&self) -> (day: Weekday)
        ensures
            self.may_report(day),
    ;
}

/// The provider that reads the local clock of the machine.
#[derive(Clone, Copy)]
pub struct RealTimeProvider;

impl TimeProvider for RealTimeProvider {
    fn get_day(&self) -> (day: Weekday) {
        local_weekday()
    }
}

/// A borrowed provider reports what the provider itself reports.
impl<T: TimeProvider> TimeProvider for &T {
    open spec fn may_report(&self, day: Weekday) -> bool {
        (**self).may_report(day)
    }

    fn get_day(&self) -> (day: Weekday) {
        (**self).get_day()
    }
}

/// Whether `reasons` is what a run on `day` may return: on a weekend the one
/// reason "It's the weekend!", whatever the rules are; on another day what the
/// rules give on `input`.
pub open spec fn gated(
    day: Weekday,
    rules: Seq<RuleModel>,
    input: Seq<char>,
    reasons: Seq<Seq<char>>,
) -> bool {
    if day.is_weekend() {
        reasons == seq![crate::weekday::weekend_reason()]
    } else {
        crate::rules::collected(rules, input, reasons)
    }
}

/// An engine that holds its rules in order, and a time provider that it asks
/// for the day before each run.
pub struct Verifier<F, T> {
    pub rules: Vec<F>,
    pub time_provider: T,
}

impl<F: Fn(String) -> Result<(), String>, T: TimeProvider> Verifier<F, T> {
    /// An engine with the given rules, in their order, and the given time provider.
    pub fn new(rules: Vec<F>, time_provider: T) -> (verifier: Self)
        ensures
            verifier.rules == rules,
            verifier.time_provider == time_provider,
    {
        Self { rules, time_provider }
    }

    /// Adds `rule` behind the rules that the engine holds.
    pub fn add_rule(&mut self, rule: F)
        ensures
            final(self).rules@ == old(self).rules@.push(rule),
            final(self).time_provider == old(self).time_provider,
    {
        self.rules.push(rule);
    }

    /// What the engine returns for `password` on `day`. On a Saturday or a
    /// Sunday no rule is run and the one reason is "It's the weekend!". On any
    /// other day every rule is run, in order and without stopping at a
    /// failure, and the reasons of the rules that failed are returned in the
    /// order of the rules.
    pub fn verify_on(&self, day: Weekday, password: &str) -> (errors: Vec<String>)
        requires
            crate::rules::owned_rules_accept(self.rules@, password@),
        ensures
            gated(
                day,
                crate::rules::owned_rule_models(self.rules@),
                password@,
                errors.deep_view(),
            ),
    {
        if day.is_weekend() {
            let mut errors: Vec<String> = Vec::new();
            errors.push("It's the weekend!".to_owned());
            assert(errors.deep_view() =~= seq![crate::weekday::weekend_reason()]);
            return errors;
        }
        run_owned_rules(&self.rules, password)
    }

    /// Asks the time provider for the day, once, and returns what the engine
    /// returns for `password` on that day.
    pub fn verify(&self, password: &str) -> (errors: Vec<String>)
        requires
            crate::rules::owned_rules_accept(self.rules@, password@),
        ensures
            exists|day: Weekday|
                self.time_provider.may_report(day) && #[trigger] gated(
                    day,
                    crate::rules::owned_rule_models(self.rules@),
                    password@,
                    errors.deep_view(),
                ),
    {
        let day = self.time_provider.get_day();
        self.verify_on(day, password)
    }
}

/// Makes engines that all ask one time provider, which the factory holds.
pub struct VerifierFactory<T> {
    pub time_provider: T,
}

impl<T: TimeProvider> VerifierFactory<T> {
    /// A factory that holds the given time provider.
    pub fn new(time_provider: T) -> (factory: Self)
        ensures
            factory.time_provider == time_provider,
    {
        Self { time_provider }
    }

    /// An engine with the given rules, in their order, that borrows the
    /// factory's time provider.
    pub fn create<F: Fn(String) -> Result<(), String>>(&self, rules: Vec<F>) -> (verifier: Verifier<
        F,
        &T,
    >)
        ensures
            verifier.rules == rules,
            *verifier.time_provider == self.time_provider,
    {
        Verifier::new(rules, &self.time_provider)
    }
}

/// On a weekend the run returns the one reason "It's the weekend!", whatever
/// the rules and the input are.
pub proof fn lemma_weekend_overrides(
    day: Weekday,
    rules: Seq<RuleModel>,
    input: Seq<char>,
    reasons: Seq<Seq<char>>,
)
    requires
        day.is_weekend(),
        gated(day, rules, input, reasons),
    ensures
        reasons == seq![crate::weekday::weekend_reason()],
        reasons.len() == 1,
{
}

/// When each rule in the list gives one answer only on the input, two runs on
/// that input and on the same day return the same reasons.
pub proof fn lemma_gated_runs_agree(
    day: Weekday,
    rules: Seq<RuleModel>,
    input: Seq<char>,
    first: Seq<Seq<char>>,
    second: Seq<Seq<char>>,
)
    requires
        gated(day, rules, input, first),
        gated(day, rules, input, second),
        forall|i: int|
            0 <= i < rules.len() ==> crate::rules::single_valued(#[trigger] rules[i], input),
    ensures
        first == second,
{
    if !day.is_weekend() {
        crate::rules::lemma_runs_agree(rules, input, first, second);
    }
}

} // verus!
