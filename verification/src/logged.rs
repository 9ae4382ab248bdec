//! The engine that tells a logger how each run ended: "PASSED" when no rule
//! failed, "FAILED" otherwise. The logger never hears the reasons.

use crate::rules::{notice_for, run_owned_rules};
use std::io::Write;
use vstd::prelude::*;

verus! {

/// Runs every rule on `password`, in the order of `rules` and without stopping
/// at a failure, tells `logger` the verdict once, and returns the reasons of
/// the rules that failed, in that order.
pub fn verify_password<F: Fn(String) -> Result<(), String>, L: FnMut(String)>(
    password: &str,
    rules: Vec<F>,
    mut logger: L,
) -> (errors: Vec<String>)
    requires
        crate::rules::owned_rules_accept(rules@, password@),
        forall|notice: String|
            notice@ == "PASSED"@ || notice@ == "FAILED"@ ==> #[trigger] call_requires(
                logger,
                (notice,),
            ),
    ensures
        crate::rules::collected(
            crate::rules::owned_rule_models(rules@),
            password@,
            errors.deep_view(),
        ),
        exists|notice: String|
            notice@ == crate::rules::verdict_notice(errors.deep_view()) && #[trigger] call_ensures(
                logger,
                (notice,),
                (),
            ),
{
    let errors = run_owned_rules(&rules, password);
    logger(notice_for(&errors).to_owned());
    errors
}

/// A sink for the verdicts of an engine.
pub trait Logger {
    /// Whether `self` is a state that the logger may be in once it was told
    /// `text` in the state `before`. Unless a logger says more of itself, it
    /// may be in any state.
    open spec fn told(&self, before: &Self, text: Seq<char>) -> bool {
        true
    }

    /// Tells the logger `text`.
    fn info(&mut self, text: &str)
        ensures
            final(self).told(old(self), text@),
    ;
}

/// Writes `text` and a line end to the standard output, by `writeln!` on
/// `std::io::stdout()`. A failure to write is dropped.
#[verifier::external_body]
fn write_line(text: &str) {
    let _ = writeln!(std::io::stdout(), "{}", text);
}

/// A logger that prints each text it is told on a line of the standard output.
pub struct SimpleLogger;

impl SimpleLogger {
    /// A logger that prints.
    pub fn new() -> Self {
        Self
    }
}

impl Logger for SimpleLogger {
    fn info(&mut self, text: &str) {
        write_line(text);
    }
}

/// An engine that holds its rules in order, and a logger that it tells the
/// verdict of each run.
pub struct Verifier<F, L> {
    pub rules: Vec<F>,
    pub logger: L,
}

impl<F: Fn(String) -> Result<(), String>, L: Logger> Verifier<F, L> {
    /// An engine with the given rules, in their order, and the given logger.
    pub fn new(rules: Vec<F>, logger: L) -> (verifier: Self)
        ensures
            verifier.rules == rules,
            verifier.logger == logger,
    {
        Self { rules, logger }
    }

    /// Adds `rule` behind the rules that the engine holds.
    pub fn add_rule(&mut self, rule: F)
        ensures
            final(self).rules@ == old(self).rules@.push(rule),
            final(self).logger == old(self).logger,
    {
        self.rules.push(rule);
    }

    /// Runs every rule of the engine on `password`, in order and without
    /// stopping at a failure, then tells the logger the verdict, once, and
    /// returns the reasons of the rules that failed, in the order of the rules.
    pub fn verify(&mut self, password: &str) -> (errors: Vec<String>)
        requires
            crate::rules::owned_rules_accept(old(self).rules@, password@),
        ensures
            final(self).rules == old(self).rules,
            crate::rules::collected(
                crate::rules::owned_rule_models(old(self).rules@),
                password@,
                errors.deep_view(),
            ),
            final(self).logger.told(
                &old(self).logger,
                crate::rules::verdict_notice(errors.deep_view()),
            ),
    {
        let errors = run_owned_rules(&self.rules, password);
        self.logger.info(notice_for(&errors));
        errors
    }
}

} // verus!
