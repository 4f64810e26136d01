//! Web addresses: the parts of a URL, and the operations of the `url` crate on them.

use vstd::prelude::*;

use crate::text::contains;

verus! {

#[verifier::external_type_specification]
#[verifier::external_body]
pub struct ExUrl(url::Url);

#[verifier::external_type_specification]
#[verifier::external_body]
pub struct ExUrlError(url::ParseError);

/// The parts of a URL, each as it is written in it. The authority holds the user, the host and
/// the port.
pub struct UrlParts {
    pub scheme: Seq<char>,
    pub authority: Seq<char>,
    pub host: Option<Seq<char>>,
    pub path: Seq<char>,
    pub query: Option<Seq<char>>,
    pub fragment: Option<Seq<char>>,
}

/// The parts of a `url::Url`.
pub uninterp spec fn url_parts(url: url::Url) -> UrlParts;

/// The parts of the URL that `url::Url::parse` reads from a text, if it is one.
pub uninterp spec fn parsed_url(text: Seq<char>) -> Option<UrlParts>;

/// Whether the parts are those of an address on the web.
pub open spec fn web(parts: UrlParts) -> bool {
    parts.scheme == "http"@ || parts.scheme == "https"@
}

/// The parts that say whom to ask: scheme and authority.
pub open spec fn origin_text(parts: UrlParts) -> Seq<char> {
    parts.scheme + "://"@ + parts.authority
}

/// A part that is written behind its mark where it is there.
pub open spec fn marked(mark: Seq<char>, part: Option<Seq<char>>) -> Seq<char> {
    match part {
        Some(part) => mark + part,
        None => Seq::empty(),
    }
}

/// An address on the web, in writing.
pub open spec fn web_text(parts: UrlParts) -> Seq<char> {
    origin_text(parts) + parts.path + marked("?"@, parts.query) + marked("#"@, parts.fragment)
}

/// A path that stands in a URL as it is: it begins with a slash and holds small letters, digits,
/// hyphens and slashes.
pub open spec fn plain_path(path: Seq<char>) -> bool {
    &&& path.len() > 0
    &&& path[0] == '/'
    &&& forall|i: int| 0 <= i < path.len() ==> plain_char(#[trigger] path[i])
}

/// The characters of a plain path.
pub open spec fn plain_char(c: char) -> bool {
    'a' <= c && c <= 'z' || '0' <= c && c <= '9' || c == '-' || c == '/'
}

/// Whether the host is written without internationalised labels.
pub open spec fn plain_host(parts: UrlParts) -> bool {
    parts.host is Some && !contains(parts.host->0, "xn--"@)
}

/// Whether a text is written in ASCII and without percent signs, so that every label of a host in
/// it stands there as it is passed on, but for the case of its letters.
pub open spec fn plain_writing(text: Seq<char>) -> bool {
    forall|i: int| 0 <= i < text.len() ==> (#[trigger] text[i] as u32) < 0x80 && text[i] != '%'
}

/// Whether the scheme and the authority, written in front of any plain path, read back as they are.
pub open spec fn origin_reads_back(parts: UrlParts) -> bool {
    forall|path: Seq<char>| #[trigger]
        plain_path(path) ==> parsed_url(origin_text(parts) + path) == Some(
            UrlParts { path, query: None, fragment: None, ..parts },
        )
}

/// `url::Url::parse`: the URL that the text says, or an error if it says none.
///
/// What it has read as the scheme and the authority of an address on the web, it reads again in
/// front of a plain path, if the host has no internationalised label or the text was plain already.
/// Nothing is said of labels that the crate has encoded itself: it writes some that are longer than
/// those it reads, and for the rest that depends on its tables of characters.
#[verifier::external_body]
pub(crate) fn parse_url(text: &str) -> (url: Result<url::Url, url::ParseError>)
    ensures
        url is Ok <==> parsed_url(text@) is Some,
        url is Ok ==> parsed_url(text@) == Some(url_parts(url->Ok_0)),
        url is Ok && web(url_parts(url->Ok_0)) && (plain_host(url_parts(url->Ok_0))
            || plain_writing(text@)) ==> origin_reads_back(url_parts(url->Ok_0)),
{
    url::Url::parse(text)
}

/// `url::Url::scheme`: the scheme, without the colon.
#[verifier::external_body]
pub(crate) fn url_scheme(url: &url::Url) -> (scheme: &str)
    ensures
        scheme@ == url_parts(*url).scheme,
{
    url.scheme()
}

/// `url::Url::host_str`: the host in writing, if the URL has one.
#[verifier::external_body]
pub(crate) fn url_host(url: &url::Url) -> (host: Option<&str>)
    ensures
        host is Some <==> url_parts(*url).host is Some,
        host is Some ==> url_parts(*url).host == Some(host->0@),
{
    url.host_str()
}

/// `url::Url::as_str`: the URL in writing. An address on the web is written as its parts in order,
/// with the marks between them.
#[verifier::external_body]
pub(crate) fn url_text(url: &url::Url) -> (text: &str)
    ensures
        web(url_parts(*url)) ==> text@ == web_text(url_parts(*url)),
{
    url.as_str()
}

/// `url::Url::path`: the path in writing.
#[verifier::external_body]
pub(crate) fn url_path(url: &url::Url) -> (path: &str)
    ensures
        path@ == url_parts(*url).path,
{
    url.path()
}

/// `url::Url::set_fragment` with no fragment: the fragment goes, and every other part stays.
#[verifier::external_body]
pub(crate) fn clear_url_fragment(url: &mut url::Url)
    requires
        web(url_parts(*old(url))),
    ensures
        url_parts(*final(url)) == (UrlParts { fragment: None, ..url_parts(*old(url)) }),
{
    url.set_fragment(None)
}

/// `url::Url::set_query` with no query, on a URL without a fragment: the query goes, and every
/// other part stays.
#[verifier::external_body]
pub(crate) fn clear_url_query(url: &mut url::Url)
    requires
        web(url_parts(*old(url))),
        url_parts(*old(url)).fragment is None,
    ensures
        url_parts(*final(url)) == (UrlParts { query: None, ..url_parts(*old(url)) }),
{
    url.set_query(None)
}

/// `url::Url::set_path` on a URL that ends with its path: another path, and every other part as
/// before. The crate holds the end of the path in 32 bits and panics where the old end or the new
/// one does not fit; a URL in writing is ASCII, so it has as many bytes as characters.
#[verifier::external_body]
pub(crate) fn set_url_path(url: &mut url::Url, path: &str)
    requires
        web(url_parts(*old(url))),
        url_parts(*old(url)).query is None,
        url_parts(*old(url)).fragment is None,
        plain_path(path@),
        origin_text(url_parts(*old(url))).len() + url_parts(*old(url)).path.len() <= u32::MAX,
        origin_text(url_parts(*old(url))).len() + path@.len() <= u32::MAX,
    ensures
        url_parts(*final(url)) == (UrlParts { path: path@, ..url_parts(*old(url)) }),
{
    url.set_path(path)
}

} // verus!
