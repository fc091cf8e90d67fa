//! Where a page comes from, and which origins are trusted.

use crate::text::{has_suffix, same_text, text_opt};
use vstd::prelude::*;

verus! {

/// The parts of an address that tell where a page comes from.
#[derive(Debug)]
pub struct UrlParts {
    pub scheme: String,
    pub host: Option<String>,
}

/// What a [`UrlParts`] holds.
pub struct UrlView {
    pub scheme: Seq<char>,
    pub host: Option<Seq<char>>,
}

impl View for UrlParts {
    type V = UrlView;

    open spec fn view(&self) -> UrlView {
        UrlView { scheme: self.scheme@, host: text_opt(self.host) }
    }
}

/// The scheme and the host of the address that `url` is read as, or the text of
/// the error where it is none.
pub uninterp spec fn parsed_url(url: Seq<char>) -> Result<
    (Seq<char>, Option<Seq<char>>),
    Seq<char>,
>;

/// Calls `url::Url::parse`, and reads off the scheme and the host of the result
/// or the text of the error. They depend on the text of the address alone.
#[verifier::external_body]
pub(crate) fn parse_url(url: &str) -> (out: Result<UrlParts, String>)
    ensures
        match out {
            Ok(parts) => parsed_url(url@) == Ok::<(Seq<char>, Option<Seq<char>>), Seq<char>>(
                (parts@.scheme, parts@.host),
            ),
            Err(message) => parsed_url(url@) == Err::<
                (Seq<char>, Option<Seq<char>>),
                Seq<char>,
            >(message@),
        },
{
    match url::Url::parse(url) {
        Ok(u) => Ok(
            UrlParts { scheme: u.scheme().to_owned(), host: u.host_str().map(str::to_owned) },
        ),
        Err(e) => Err(e.to_string()),
    }
}

/// Whether `host` is one of the Notion domains or lies below one.
pub open spec fn notion_host(host: Seq<char>) -> bool {
    ||| host == "notion.so"@
    ||| ".notion.so"@.is_suffix_of(host)
    ||| host == "notion.com"@
    ||| ".notion.com"@.is_suffix_of(host)
}

/// Whether a page comes from Notion, over a secure connection.
pub open spec fn from_notion(url: UrlView) -> bool {
    &&& url.scheme == "https"@
    &&& url.host matches Some(host)
    &&& notion_host(host)
}

/// Whether a page comes from the application itself.
pub open spec fn from_application(url: UrlView) -> bool {
    ||| (url.scheme == "tauri"@ || url.scheme == "wry"@) && url.host == Some("localhost"@)
    ||| (url.scheme == "http"@ || url.scheme == "https"@) && url.host == Some("tauri.localhost"@)
}

/// Whether a page at this address, if it has one, may call into the application.
pub open spec fn trusted(url: Option<UrlView>) -> bool {
    url matches Some(u) && (from_notion(u) || from_application(u))
}

/// What the parts read from an address come to as an optional view.
pub open spec fn parts_view(url: Option<UrlParts>) -> Option<UrlView> {
    match url {
        Some(u) => Some(u@),
        None => None,
    }
}

/// Whether `url` is read as the address of a page from Notion.
pub open spec fn notion_url(url: Seq<char>) -> bool {
    parsed_url(url) matches Ok((scheme, host)) && from_notion(UrlView { scheme, host })
}

/// Tests whether `host` is one of the Notion domains or lies below one.
pub fn is_notion_host(host: &str) -> (found: bool)
    ensures
        found == notion_host(host@),
{
    same_text(host, "notion.so") || has_suffix(host, ".notion.so") || same_text(host, "notion.com")
        || has_suffix(host, ".notion.com")
}

/// Tests whether a page comes from Notion.
pub fn is_from_notion(url: &UrlParts) -> (found: bool)
    ensures
        found == from_notion(url@),
{
    match &url.host {
        Some(host) => same_text(url.scheme.as_str(), "https") && is_notion_host(host.as_str()),
        None => false,
    }
}

/// Tests whether `url` is the address of a page from Notion.
pub fn is_notion_url(url: &str) -> (found: bool)
    ensures
        found == notion_url(url@),
{
    match parse_url(url) {
        Ok(parts) => is_from_notion(&parts),
        Err(_) => false,
    }
}

/// Tests whether a page at this address may call into the application. A page
/// whose address is not known may not.
pub fn is_trusted_origin(url: &Option<UrlParts>) -> (found: bool)
    ensures
        found == trusted(parts_view(*url)),
{
    match url {
        Some(u) => {
            let scheme = u.scheme.as_str();
            if is_from_notion(u) {
                return true;
            }
            match &u.host {
                Some(host) => ((same_text(scheme, "tauri") || same_text(scheme, "wry"))
                    && same_text(host.as_str(), "localhost")) || ((same_text(scheme, "http")
                    || same_text(scheme, "https")) && same_text(host.as_str(), "tauri.localhost")),
                None => false,
            }
        },
        None => false,
    }
}

} // verus!
