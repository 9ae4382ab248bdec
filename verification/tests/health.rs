use std::cell::RefCell;
use verification_engine::health::{
    is_website_alive, is_website_alive_2, process_fetch_content, process_fetch_error,
    process_fetched, NetworkAdapter,
};

struct MockNetworkAdapter {
    answer: Result<String, String>,
    asked: RefCell<Vec<String>>,
}

impl MockNetworkAdapter {
    fn returning(answer: Result<String, String>) -> Self {
        Self {
            answer,
            asked: RefCell::new(vec![]),
        }
    }
}

impl NetworkAdapter for MockNetworkAdapter {
    fn fetch_url_text(&self, url: String) -> Result<String, String> {
        self.asked.borrow_mut().push(url);
        self.answer.clone()
    }
}

#[test]
fn website_up_check_on_fetch_success_with_good_content_returns_true() {
    let response = process_fetch_content("illustrative".into());

    assert!(response.is_ok());
}

#[test]
fn website_up_check_on_fetch_fail_throws_error() {
    let response = process_fetch_error("error text".into());

    assert_eq!(response, "error text");
}

#[test]
fn website_verifier_with_good_content_returns_true() {
    let stub_network_adaptor = MockNetworkAdapter::returning(Ok("illustrative".into()));

    let response = is_website_alive(stub_network_adaptor);

    assert!(response.is_ok());
}

#[test]
fn website_verifier_with_bad_content_returns_false() {
    let stub_network_adaptor = MockNetworkAdapter::returning(Ok("hello".into()));

    let response = is_website_alive(stub_network_adaptor);

    assert!(response.is_err());
    assert_eq!(response.unwrap_err(), "missing text");
}

#[test]
fn website_verifier_2_with_good_content_returns_true() {
    let stub = |_url| Ok("illustrative".into());
    let response = is_website_alive_2(stub);

    assert!(response.is_ok());
}

#[test]
fn website_verifier_2_with_bad_content_returns_false() {
    let stub = |_url| Ok("hello".into());
    let response = is_website_alive_2(stub);

    assert!(response.is_err());
    assert_eq!(response.unwrap_err(), "missing text");
}

#[test]
fn website_verifier_passes_on_text_around_the_marker() {
    let stub = MockNetworkAdapter::returning(Ok("illustrative text".into()));

    assert_eq!(is_website_alive(stub), Ok(()));
    assert_eq!(
        is_website_alive_2(|_url| Ok("some illustrative text".into())),
        Ok(())
    );
}

#[test]
fn website_verifier_hands_a_transport_error_on_as_it_came() {
    let stub = MockNetworkAdapter::returning(Err("timeout".into()));

    assert_eq!(is_website_alive(stub), Err(String::from("timeout")));
    assert_eq!(
        is_website_alive_2(|_url| Err("timeout".into())),
        Err(String::from("timeout"))
    );
}

#[test]
fn a_transport_error_that_names_the_marker_is_still_an_error() {
    assert_eq!(
        process_fetched(Err("illustrative".into())),
        Err(String::from("illustrative"))
    );
}

#[test]
fn website_verifier_fetches_the_site_once() {
    let stub = MockNetworkAdapter::returning(Ok("illustrative".into()));

    let response = is_website_alive(&stub);

    assert_eq!(response, Ok(()));
    assert_eq!(*stub.asked.borrow(), vec![String::from("http://example.com")]);
}

#[test]
fn website_verifier_2_fetches_the_site_once() {
    let asked: RefCell<Vec<String>> = RefCell::new(vec![]);

    let response = is_website_alive_2(|url| {
        asked.borrow_mut().push(url);
        Ok("hello".into())
    });

    assert_eq!(response, Err(String::from("missing text")));
    assert_eq!(*asked.borrow(), vec![String::from("http://example.com")]);
}

#[test]
fn process_fetch_content_looks_for_the_whole_marker() {
    assert_eq!(process_fetch_content("illustrative".into()), Ok(()));
    assert_eq!(process_fetch_content("an illustrative example".into()), Ok(()));
    assert_eq!(
        process_fetch_content("illustrativ".into()),
        Err(String::from("missing text"))
    );
    assert_eq!(
        process_fetch_content("illus trative".into()),
        Err(String::from("missing text"))
    );
    assert_eq!(
        process_fetch_content("Illustrative".into()),
        Err(String::from("missing text"))
    );
    assert_eq!(
        process_fetch_content("".into()),
        Err(String::from("missing text"))
    );
}

#[test]
fn process_fetched_joins_both_paths() {
    assert_eq!(process_fetched(Ok("illustrative text".into())), Ok(()));
    assert_eq!(
        process_fetched(Ok("hello".into())),
        Err(String::from("missing text"))
    );
    assert_eq!(
        process_fetched(Err("timeout".into())),
        Err(String::from("timeout"))
    );
}
