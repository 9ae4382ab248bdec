//! The whole engine: it asks a time provider for the day, runs its rules
//! unless the day is a Saturday or a Sunday, and tells a logger how a run of
//! the rules ended.

use crate::logged::Logger;
use crate::rules::{notice_for, run_owned_rules};
use crate::timed::TimeProvider;
use crate::weekday::Weekday;
use vstd::prelude::*;

verus! {

/// An engine that holds its rules in order, a time provider that it asks for
/// the day before each run, and a logger of its own.
pub struct Engine<F, T, L> {
    pub rules: Vec<F>,
    pub time_provider: T,
    pub logger: L,
}

impl<F: Fn(String) -> Result<(), String>, T: TimeProvider, L: Logger> Engine<F, T, L> {
    /// An engine with the given rules, in their order, the given time provider
    /// and the given logger.
    pub fn new(rules: Vec<F>, time_provider: T, logger: L) -> (engine: Self)
        ensures
            engine.rules == rules,
            engine.time_provider == time_provider,
            engine.logger == logger,
    {
        Self { rules, time_provider, logger }
    }

    /// Adds `rule` behind the rules that the engine holds.
    pub fn add_rule(&mut self, rule: F)
        ensures
            final(self).rules@ == old(self).rules@.push(rule),
            final(self).time_provider == old(self).time_provider,
            final(self).logger == old(self).logger,
    {
        self.rules.push(rule);
    }

    /// Whether the engine `before` a run for `password` on `day`, the engine
    /// `after` it and the `errors` it returned fit together. The run leaves the
    /// rules and the time provider alone. On a Saturday or a Sunday it returns
    /// the one reason "It's the weekend!", whatever the rules are, and leaves
    /// the logger alone. On any other day it returns what the rules give, and
    /// the logger was told, once, "PASSED" when that is nothing and "FAILED"
    /// otherwise.
    pub open spec fn ran_on(
        before: &Self,
        after: &Self,
        day: Weekday,
        password: Seq<char>,
        errors: Seq<Seq<char>>,
    ) -> bool {
        &&& after.rules == before.rules
        &&& after.time_provider == before.time_provider
        &&& crate::timed::gated(
            day,
            crate::rules::owned_rule_models(before.rules@),
            password,
            errors,
        )
        &&& if day.is_weekend() {
            after.logger == before.logger
        } else {
            after.logger.told(&before.logger, crate::rules::verdict_notice(errors))
        }
    }

    /// What the engine does for `password` on `day`. On a Saturday or a Sunday
    /// it runs no rule, leaves the logger alone and returns the one reason
    /// "It's the weekend!". On any other day it runs every rule, in order and
    /// without stopping at a failure, then tells the logger "PASSED" when no
    /// rule failed and "FAILED" otherwise, once, and returns the reasons of the
    /// rules that failed, in the order of the rules.
    pub fn verify_on(&mut self, day: Weekday, password: &str) -> (errors: Vec<String>)
        requires
            crate::rules::owned_rules_accept(old(self).rules@, password@),
        ensures
            Self::ran_on(old(self), final(self), day, password@, errors.deep_view()),
    {
        if day.is_weekend() {
            let mut errors: Vec<String> = Vec::new();
            errors.push("It's the weekend!".to_owned());
            assert(errors.deep_view() =~= seq![crate::weekday::weekend_reason()]);
            return errors;
        }
        let errors = run_owned_rules(&self.rules, password);
        self.logger.info(notice_for(&errors));
        errors
    }

    /// Asks the time provider for the day, once, and does for `password` what
    /// the engine does on that day.
    pub fn verify(&mut self, password: &str) -> (errors: Vec<String>)
        requires
            crate::rules::owned_rules_accept(old(self).rules@, password@),
        ensures
            exists|day: Weekday|
                old(self).time_provider.may_report(day) && #[trigger] Self::ran_on(
                    old(self),
                    final(self),
                    day,
                    password@,
                    errors.deep_view(),
                ),
    {
        let day = self.time_provider.get_day();
        self.verify_on(day, password)
    }
}

/// On a weekend a run returns exactly the one reason "It's the weekend!",
/// whatever the rules and the password are, and the logger hears nothing.
pub proof fn lemma_weekend_run<F: Fn(String) -> Result<(), String>, T: TimeProvider, L: Logger>(
    before: &Engine<F, T, L>,
    after: &Engine<F, T, L>,
    day: Weekday,
    password: Seq<char>,
    errors: Seq<Seq<char>>,
)
    requires
        day.is_weekend(),
        Engine::ran_on(before, after, day, password, errors),
    ensures
        errors == seq![crate::weekday::weekend_reason()],
        errors.len() == 1,
        after.logger == before.logger,
{
}

} // verus!
