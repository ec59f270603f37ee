//! The request of a lookup: the endpoint's URL with the five query parameters
//! that ask for one article's extract.

use vstd::prelude::*;
use vstd::string::*;
use reqwest::Url;
use crate::error::{Error, ErrorView};

verus! {

/// `reqwest::Url`, a parsed URL. Nothing here looks inside one: what the
/// contracts say of a URL, they say over [`url_view`].
#[verifier::external_type_specification]
#[verifier::external_body]
pub struct ExUrl(reqwest::Url);

/// What the contracts say of a URL.
pub struct UrlView {
    /// The text up to the query: scheme, authority and path.
    pub address: Seq<char>,
    /// The parameters of the query, as `Url::query_pairs` hands them out:
    /// name and value of each, decoded, in the order in which they stand.
    pub pairs: Seq<(Seq<char>, Seq<char>)>,
    /// The length in bytes of the whole text, as `Url::as_str` returns it.
    pub length: nat,
}

/// What a URL holds.
pub uninterp spec fn url_view(url: Url) -> UrlView;

/// What `Url::parse` makes of a text: what the URL it returns holds, or the
/// message of the error it returns.
pub uninterp spec fn parsed_url(text: Seq<char>) -> Result<UrlView, Seq<char>>;

/// Calls `Url::parse`, which reads an absolute URL or returns an error.
/// Claimed: the outcome is the one that [`parsed_url`] names for this text.
#[verifier::external_body]
fn parse_url(text: &str) -> (parsed: Result<Url, String>)
    ensures
        parsed_url(text@) == match parsed {
            Ok(url) => Ok(url_view(url)),
            Err(message) => Err(message@),
        },
{
    Url::parse(text).map_err(|error| error.to_string())
}

/// Reads the length of a URL's text, through `Url::as_str`.
#[verifier::external_body]
fn url_length(url: &Url) -> (length: usize)
    ensures
        length == url_view(*url).length,
{
    url.as_str().len()
}

/// Calls `Url::query_pairs_mut` and, on what it returns, `append_pair`, which
/// writes one more parameter at the end of the query, form-encoded.
///
/// Claimed: what stands before the query stays as it is; the parameters are
/// those that the URL had, followed by the new one, since decoding undoes the
/// encoding; and the text grows by no more than three bytes for each byte of
/// name and value, and three for separators.
/// `query_pairs_mut` unwraps a conversion of the text's length to 32 bits;
/// `requires` keeps the text, as it is before and after, within that range.
#[verifier::external_body]
fn append_pair(url: &mut Url, name: &str, value: &str)
    requires
        url_view(*old(url)).length + 3 * (name.spec_bytes().len() + value.spec_bytes().len()) + 3
            <= u32::MAX,
    ensures
        url_view(*final(url)).address == url_view(*old(url)).address,
        url_view(*final(url)).pairs == url_view(*old(url)).pairs.push((name@, value@)),
        url_view(*final(url)).length <= url_view(*old(url)).length + 3 * (name.spec_bytes().len()
            + value.spec_bytes().len()) + 3,
{
    url.query_pairs_mut().append_pair(name, value);
}

/// The address of the encyclopedia's read API.
pub const ENDPOINT: &'static str = "https://en.wikipedia.org/w/api.php";

/// The message of the failure to form a URL that would be too long.
pub const TOO_LONG: &'static str = "URLs more than 4 GB are not supported";

/// The longest text of the parsed endpoint, in bytes, to which parameters are
/// still added.
pub const MAX_ENDPOINT_BYTES: usize = 0x1000_0000;

/// The longest title, in bytes, that is still put into a URL. Encoded it may
/// take three times as much, and a URL's text stays below four gigabytes.
pub const MAX_TITLE_BYTES: usize = 0x4000_0000;

/// The five parameters of a lookup of `title`, in the order in which they are
/// sent.
pub open spec fn search_params(title: Seq<char>) -> Seq<(Seq<char>, Seq<char>)> {
    seq![
        ("action"@, "query"@),
        ("format"@, "json"@),
        ("formatversion"@, "2"@),
        ("prop"@, "extracts"@),
        ("titles"@, title),
    ]
}

/// The message with which no URL is built for `query`, where none is: the
/// parser's, where the endpoint does not parse; [`TOO_LONG`], where the parsed
/// endpoint or the title is past its limit.
pub open spec fn build_failure(query: &str) -> Option<Seq<char>> {
    match parsed_url(ENDPOINT@) {
        Ok(endpoint) => if endpoint.length <= MAX_ENDPOINT_BYTES && query.spec_bytes().len()
            <= MAX_TITLE_BYTES {
            None
        } else {
            Some(TOO_LONG@)
        },
        Err(reported) => Some(reported),
    }
}

/// Whether `url` is the request that looks up `title`: it has the address of
/// the parsed endpoint, and its parameters are those of the parsed endpoint,
/// followed by the five of the lookup.
pub open spec fn is_search_url(url: Url, title: Seq<char>) -> bool {
    &&& parsed_url(ENDPOINT@) matches Ok(endpoint)
    &&& url_view(url).address == endpoint.address
    &&& url_view(url).pairs == endpoint.pairs + search_params(title)
}

/// The lengths in bytes of the names and values that every lookup sends.
proof fn lemma_fixed_lengths()
    ensures
        "action".spec_bytes().len() == 6,
        "query".spec_bytes().len() == 5,
        "format".spec_bytes().len() == 6,
        "json".spec_bytes().len() == 4,
        "formatversion".spec_bytes().len() == 13,
        "2".spec_bytes().len() == 1,
        "prop".spec_bytes().len() == 4,
        "extracts".spec_bytes().len() == 8,
        "titles".spec_bytes().len() == 6,
{
    reveal_strlit("action");
    reveal_strlit("query");
    reveal_strlit("format");
    reveal_strlit("json");
    reveal_strlit("formatversion");
    reveal_strlit("2");
    reveal_strlit("prop");
    reveal_strlit("extracts");
    reveal_strlit("titles");
    is_ascii_spec_bytes("action");
    is_ascii_spec_bytes("query");
    is_ascii_spec_bytes("format");
    is_ascii_spec_bytes("json");
    is_ascii_spec_bytes("formatversion");
    is_ascii_spec_bytes("2");
    is_ascii_spec_bytes("prop");
    is_ascii_spec_bytes("extracts");
    is_ascii_spec_bytes("titles");
}

/// Builds the URL of the request that looks up `query`: the endpoint, parsed,
/// with the five parameters appended in order, `titles` bound to `query`.
///
/// Fails, with the parser's message, where the endpoint does not parse; and
/// where the URL's text could pass the four gigabytes that a URL holds. The
/// last parameter of a URL that is built decodes to the text searched for.
pub fn get_search_url(query: &str) -> (built: Result<Url, Error>)
    ensures
        match build_failure(query) {
            None => built matches Ok(url) && is_search_url(url, query@),
            Some(message) => built matches Err(error) && error@ == ErrorView::Url(message),
        },
        built matches Ok(url) ==> url_view(url).pairs.last() == ("titles"@, query@),
{
    match parse_url(ENDPOINT) {
        Err(message) => Err(Error::Url(message)),
        Ok(url) => {
            let mut url = url;
            if url_length(&url) > MAX_ENDPOINT_BYTES || query.as_bytes().len() > MAX_TITLE_BYTES {
                return Err(Error::Url(TOO_LONG.to_owned()));
            }
            let ghost pairs = url_view(url).pairs;
            proof {
                lemma_fixed_lengths();
            }
            append_pair(&mut url, "action", "query");
            append_pair(&mut url, "format", "json");
            append_pair(&mut url, "formatversion", "2");
            append_pair(&mut url, "prop", "extracts");
            append_pair(&mut url, "titles", query);
            assert(url_view(url).pairs =~= pairs + search_params(query@));
            Ok(url)
        },
    }
}

} // verus!
