use verification_engine::timed::{RealTimeProvider, TimeProvider, Verifier, VerifierFactory};
use verification_engine::weekday::Weekday;

type RuleVerifier = fn(String) -> Result<(), String>;

struct FakeTimeProvider {
    day: Weekday,
}

impl FakeTimeProvider {
    fn new(day: Weekday) -> Self {
        Self { day }
    }
}

impl TimeProvider for FakeTimeProvider {
    fn get_day(&self) -> Weekday {
        self.day
    }
}

fn failing_rule() -> RuleVerifier {
    |_p| Err("fake reason".into())
}

fn passing_rule() -> RuleVerifier {
    |_p| Ok(())
}

fn panicking_rule() -> RuleVerifier {
    |_p| panic!("no rule is run on a weekend")
}

#[test]
fn verifier_on_weekekds_throws_error() {
    let stub_time_provider = FakeTimeProvider::new(Weekday::Sun);
    let rules: Vec<RuleVerifier> = vec![];
    let verifier = Verifier::new(rules, stub_time_provider);

    let errors = verifier.verify("anything");

    assert!(errors[0].contains("weekend"));
}

#[test]
fn verifier_on_a_weekend_returns_exactly_the_weekend_reason() {
    for day in [Weekday::Sat, Weekday::Sun] {
        let verifier = Verifier::new(
            vec![failing_rule(), passing_rule(), failing_rule()],
            FakeTimeProvider::new(day),
        );

        assert_eq!(
            verifier.verify("anything"),
            vec![String::from("It's the weekend!")]
        );
    }
}

#[test]
fn verifier_on_a_weekend_runs_no_rule() {
    let verifier = Verifier::new(vec![panicking_rule()], FakeTimeProvider::new(Weekday::Sat));

    assert_eq!(
        verifier.verify("anything"),
        vec![String::from("It's the weekend!")]
    );
}

#[test]
fn verifier_on_a_working_day_without_rules_returns_nothing() {
    let rules: Vec<RuleVerifier> = vec![];
    let verifier = Verifier::new(rules, FakeTimeProvider::new(Weekday::Wed));

    assert_eq!(verifier.verify("anything"), Vec::<String>::new());
}

#[test]
fn verifier_on_a_working_day_collects_the_failures_in_order() {
    for day in [
        Weekday::Mon,
        Weekday::Tue,
        Weekday::Wed,
        Weekday::Thu,
        Weekday::Fri,
    ] {
        let mut verifier = Verifier::new(vec![failing_rule()], FakeTimeProvider::new(day));
        verifier.add_rule(passing_rule());
        verifier.add_rule(|p| Err(format!("saw {}", p)));

        assert_eq!(
            verifier.verify("anything"),
            vec![String::from("fake reason"), String::from("saw anything")]
        );
    }
}

#[test]
fn verify_on_takes_the_day_as_given() {
    let verifier = Verifier::new(vec![failing_rule()], FakeTimeProvider::new(Weekday::Sun));

    assert_eq!(
        verifier.verify_on(Weekday::Fri, "anything"),
        vec![String::from("fake reason")]
    );
    assert_eq!(
        verifier.verify_on(Weekday::Sat, "anything"),
        vec![String::from("It's the weekend!")]
    );
}

#[test]
fn verifier_twice_on_the_same_day_gives_the_same_reasons() {
    let verifier = Verifier::new(
        vec![failing_rule(), passing_rule()],
        FakeTimeProvider::new(Weekday::Tue),
    );

    let first = verifier.verify("anything");
    let second = verifier.verify("anything");

    assert_eq!(first, second);
}

#[test]
fn factory_engines_share_the_time_provider() {
    let factory = VerifierFactory::new(FakeTimeProvider::new(Weekday::Sun));

    let one = factory.create(vec![failing_rule()]);
    let other = factory.create(vec![passing_rule()]);

    assert_eq!(one.verify("anything"), vec![String::from("It's the weekend!")]);
    assert_eq!(other.verify("anything"), vec![String::from("It's the weekend!")]);
    assert!(std::ptr::eq(one.time_provider, other.time_provider));
    assert!(std::ptr::eq(one.time_provider, &factory.time_provider));
}

#[test]
fn factory_engines_keep_their_own_rules() {
    let factory = VerifierFactory::new(FakeTimeProvider::new(Weekday::Mon));

    let one = factory.create(vec![failing_rule()]);
    let other = factory.create(vec![passing_rule()]);

    assert_eq!(one.verify("anything"), vec![String::from("fake reason")]);
    assert_eq!(other.verify("anything"), Vec::<String>::new());
}

#[test]
fn real_time_provider_blocks_exactly_on_its_weekend_days() {
    let provider = RealTimeProvider;
    let day = provider.get_day();
    let verifier = Verifier::new(vec![failing_rule()], provider);

    let errors = verifier.verify_on(day, "anything");

    if day.is_weekend() {
        assert_eq!(errors, vec![String::from("It's the weekend!")]);
    } else {
        assert_eq!(errors, vec![String::from("fake reason")]);
    }
}
