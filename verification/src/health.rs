//! The liveness check of a web site: its page is fetched through a network
//! adapter, and the site is alive when the page holds the word "illustrative".

use vstd::prelude::*;

verus! {

/// The address of the page that the check fetches.
pub open spec fn site_url() -> Seq<char> {
    "http://example.com"@
}

/// The word that the page of a live site holds.
pub open spec fn marker() -> Seq<char> {
    "illustrative"@
}

/// Whether `needle` stands somewhere in `text`, as one unbroken run of characters.
pub open spec fn occurs_in(needle: Seq<char>, text: Seq<char>) -> bool {
    exists|start: int|
        0 <= start && start + needle.len() <= text.len() && #[trigger] text.subrange(
            start,
            start + needle.len(),
        ) == needle
}

/// What was fetched, as plain data: the text of the page, or the description
/// of the transport error.
pub open spec fn fetched_view(fetched: Result<String, String>) -> Result<Seq<char>, Seq<char>> {
    match fetched {
        Ok(text) => Ok(text@),
        Err(error) => Err(error@),
    }
}

/// The verdict on the text of a page: it passes when it holds the marker, and
/// fails with "missing text" when it does not.
pub open spec fn content_outcome(text: Seq<char>) -> Result<(), Seq<char>> {
    if occurs_in(marker(), text) {
        Ok(())
    } else {
        Err("missing text"@)
    }
}

/// The verdict on what was fetched: that of the text when there is one, else
/// the description of the transport error as it came.
pub open spec fn fetch_outcome(fetched: Result<Seq<char>, Seq<char>>) -> Result<(), Seq<char>> {
    match fetched {
        Ok(text) => content_outcome(text),
        Err(error) => Err(error),
    }
}

/// Whether `needle` stands in `text`, by `str::contains` with a string slice
/// as the pattern. The call is true when the pattern matches a sub-slice of the
/// text and false when it does not; the contract reads this character by
/// character, as the run of characters that `occurs_in` asks for.
#[verifier::external_body]
fn contains(text: &str, needle: &str) -> (found: bool)
    ensures
        found == occurs_in(needle@, text@),
{
    text.contains(needle)
}

/// The verdict on the text of the fetched page.
pub fn process_fetch_content(text: String) -> (verdict: Result<(), String>)
    ensures
        crate::rules::outcome_view(verdict) == content_outcome(text@),
{
    if contains(text.as_str(), "illustrative") {
        Ok(())
    } else {
        Err("missing text".to_owned())
    }
}

/// The reason that stands for a transport error: its description, unchanged.
pub fn process_fetch_error(text: String) -> (reason: String)
    ensures
        reason == text,
{
    text
}

/// The verdict on what was fetched, whether a page or a transport error. A
/// transport error comes back in the same shape as a failed check: only the
/// text of the reason tells them apart.
pub fn process_fetched(fetched: Result<String, String>) -> (verdict: Result<(), String>)
    ensures
        crate::rules::outcome_view(verdict) == fetch_outcome(fetched_view(fetched)),
{
    match fetched {
        Ok(text) => process_fetch_content(text),
        Err(error) => Err(process_fetch_error(error)),
    }
}

/// A way to fetch the text behind an address. The call blocks until the text
/// or a transport error is there.
pub trait NetworkAdapter {
    /// Whether fetching `url` may give `fetched`. Unless an adapter says more
    /// of itself, fetching may give anything.
    open spec fn may_fetch(&self, url: Seq<char>, fetched: Result<Seq<char>, Seq<char>>) -> bool {
        true
    }

    /// The text behind `url`, or the description of the transport error.
    fn fetch_url_text(&self, url: String) -> (fetched: Result<String, String>)
        ensures
            self.may_fetch(url@, fetched_view(fetched)),
    ;
}

/// A borrowed adapter fetches what the adapter itself fetches.
impl<N: NetworkAdapter> NetworkAdapter for &N {
    open spec fn may_fetch(&self, url: Seq<char>, fetched: Result<Seq<char>, Seq<char>>) -> bool {
        (**self).may_fetch(url, fetched)
    }

    fn fetch_url_text(&self, url: String) -> (fetched: Result<String, String>) {
        (**self).fetch_url_text(url)
    }
}

/// Fetches the page of the site through `network_adaptor`, once, and returns
/// the verdict on what was fetched.
pub fn is_website_alive<N: NetworkAdapter>(network_adaptor: N) -> (verdict: Result<(), String>)
    ensures
        exists|fetched: Result<Seq<char>, Seq<char>>|
            network_adaptor.may_fetch(site_url(), fetched) && crate::rules::outcome_view(verdict)
                == #[trigger] fetch_outcome(fetched),
{
    let fetched = network_adaptor.fetch_url_text("http://example.com".to_owned());
    let ghost seen = fetched_view(fetched);
    let verdict = process_fetched(fetched);
    assert(crate::rules::outcome_view(verdict) == fetch_outcome(seen));
    verdict
}

/// Fetches the page of the site by a call of `url_text_fetcher`, once, and
/// returns the verdict on what was fetched.
pub fn is_website_alive_2<F: Fn(String) -> Result<String, String>>(
    url_text_fetcher: F,
) -> (verdict: Result<(), String>)
    requires
        forall|url: String|
            url@ == site_url() ==> #[trigger] call_requires(url_text_fetcher, (url,)),
    ensures
        exists|url: String, fetched: Result<String, String>|
            url@ == site_url() && #[trigger] call_ensures(url_text_fetcher, (url,), fetched)
                && crate::rules::outcome_view(verdict) == fetch_outcome(fetched_view(fetched)),
{
    let fetched = url_text_fetcher("http://example.com".to_owned());
    process_fetched(fetched)
}

} // verus!
