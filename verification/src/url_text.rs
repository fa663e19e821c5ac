//! URLs as text: what the `url` crate computes on them.
use vstd::prelude::*;

verus! {

/// A parsed URL: its serialization and its scheme.
#[derive(Clone, Debug, PartialEq, Eq)]
pub struct Endpoint {
    pub text: String,
    pub scheme: String,
}

impl View for Endpoint {
    type V = (Seq<char>, Seq<char>);

    open spec fn view(&self) -> (Seq<char>, Seq<char>) {
        (self.text@, self.scheme@)
    }
}

/// What `url::Url::parse` makes of a text: the serialization and the scheme, or the
/// message of its error.
pub uninterp spec fn url_parsed(raw: Seq<char>) -> Result<(Seq<char>, Seq<char>), Seq<char>>;

/// What `url::Url::path` gives for the URL that a text parses to.
pub uninterp spec fn url_path_of(url: Seq<char>) -> Option<Seq<char>>;

/// The URL of a text after `url::Url::set_scheme`; `None` where it refuses.
pub uninterp spec fn url_with_scheme(url: Seq<char>, scheme: Seq<char>) -> Option<Seq<char>>;

/// The URL of a text after `url::Url::set_path`.
pub uninterp spec fn url_with_path(url: Seq<char>, path: Seq<char>) -> Option<Seq<char>>;

/// What `url::Url::join` makes of a base and a reference, or the message of its error.
pub uninterp spec fn url_joined(base: Seq<char>, reference: Seq<char>) -> Result<
    Seq<char>,
    Seq<char>,
>;

/// The characters of a parse result.
pub open spec fn endpoint_view(r: Result<Endpoint, String>) -> Result<
    (Seq<char>, Seq<char>),
    Seq<char>,
> {
    match r {
        Ok(e) => Ok(e@),
        Err(m) => Err(m@),
    }
}

/// The characters of a result of two strings.
pub open spec fn text_result(r: Result<String, String>) -> Result<Seq<char>, Seq<char>> {
    match r {
        Ok(e) => Ok(e@),
        Err(m) => Err(m@),
    }
}

/// Parses a URL.
///
/// Calls `url::Url::parse`, then reads `as_str` and `scheme` of what it returned. The
/// contract names the result; it is a function of the text alone.
#[verifier::external_body]
pub(crate) fn parse_url(raw: &str) -> (r: Result<Endpoint, String>)
    ensures
        endpoint_view(r) == url_parsed(raw@),
{
    match url::Url::parse(raw) {
        Ok(u) => Ok(Endpoint { text: u.as_str().to_owned(), scheme: u.scheme().to_owned() }),
        Err(e) => Err(e.to_string()),
    }
}

/// The path of the URL that a text parses to.
///
/// Calls `url::Url::path`; `None` where the text is no URL. The contract names the result.
#[verifier::external_body]
pub(crate) fn read_path(url: &str) -> (r: Option<String>)
    ensures
        crate::text::opt_string(r) == url_path_of(url@),
{
    url::Url::parse(url).ok().map(|u| u.path().to_owned())
}

/// The URL with another scheme.
///
/// Calls `url::Url::set_scheme`; `None` where that refuses the scheme or the text is no URL.
/// The contract names the result.
#[verifier::external_body]
pub(crate) fn set_scheme(url: &str, scheme: &str) -> (r: Option<String>)
    ensures
        crate::text::opt_string(r) == url_with_scheme(url@, scheme@),
{
    let mut u = url::Url::parse(url).ok()?;
    u.set_scheme(scheme).ok()?;
    Some(u.as_str().to_owned())
}

/// The URL with another path.
///
/// Calls `url::Url::set_path`; `None` where the text is no URL. The contract names the result.
#[verifier::external_body]
pub(crate) fn set_path(url: &str, path: &str) -> (r: Option<String>)
    ensures
        crate::text::opt_string(r) == url_with_path(url@, path@),
{
    let mut u = url::Url::parse(url).ok()?;
    u.set_path(path);
    Some(u.as_str().to_owned())
}

/// The URL that a reference names relative to a base.
///
/// Calls `url::Url::join` on the parsed base; an error of either comes back as its message.
/// The contract names the result.
#[verifier::external_body]
pub(crate) fn join(base: &str, reference: &str) -> (r: Result<String, String>)
    ensures
        text_result(r) == url_joined(base@, reference@),
{
    match url::Url::parse(base) {
        Ok(u) => match u.join(reference) {
            Ok(j) => Ok(j.as_str().to_owned()),
            Err(e) => Err(e.to_string()),
        },
        Err(e) => Err(e.to_string()),
    }
}

} // verus!
