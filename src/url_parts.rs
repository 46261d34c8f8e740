use crate::params::opt_view;
use vstd::prelude::*;

verus! {

#[verifier::external_type_specification]
#[verifier::external_body]
pub struct ExParseError(url::ParseError);

/// Whether `url::Url::parse` accepts the text.
pub uninterp spec fn url_accepts(s: Seq<char>) -> bool;

/// What `url::Url::username` gives for the URL parsed from the text.
pub uninterp spec fn url_username_of(s: Seq<char>) -> Seq<char>;

/// What `url::Url::host_str` gives for the URL parsed from the text.
pub uninterp spec fn url_host_of(s: Seq<char>) -> Option<Seq<char>>;

/// What `url::Url::port` gives for the URL parsed from the text.
pub uninterp spec fn url_port_of(s: Seq<char>) -> Option<u16>;

/// The pairs, in order, that `url::Url::query_pairs` yields for the URL
/// parsed from the text.
pub uninterp spec fn url_query_of(s: Seq<char>) -> Seq<(Seq<char>, Seq<char>)>;

/// What `url::Url::fragment` gives for the URL parsed from the text.
pub uninterp spec fn url_fragment_of(s: Seq<char>) -> Option<Seq<char>>;

/// What `percent_encoding::percent_decode_str(..).decode_utf8_lossy()` gives.
pub uninterp spec fn percent_decoded_of(s: Seq<char>) -> Seq<char>;

/// The parts of a parsed URL that the parser reads, as plain values.
pub struct UrlComponents {
    pub username: String,
    pub host: Option<String>,
    pub port: Option<u16>,
    pub query: Vec<(String, String)>,
    pub fragment: Option<String>,
}

/// The value of the parts of a parsed URL.
pub struct UrlComponentsModel {
    pub username: Seq<char>,
    pub host: Option<Seq<char>>,
    pub port: Option<u16>,
    pub query: Seq<(Seq<char>, Seq<char>)>,
    pub fragment: Option<Seq<char>>,
}

impl View for UrlComponents {
    type V = UrlComponentsModel;

    open spec fn view(&self) -> UrlComponentsModel {
        UrlComponentsModel {
            username: self.username@,
            host: opt_view(self.host),
            port: self.port,
            query: self.query.deep_view(),
            fragment: opt_view(self.fragment),
        }
    }
}

/// Relies on `url::Url::parse` and, on the parsed URL, `username`,
/// `host_str`, `port`, `query_pairs` and `fragment`: each part depends on
/// the text alone.
#[verifier::external_body]
pub(crate) fn url_components(s: &str) -> (r: Result<UrlComponents, url::ParseError>)
    ensures
        r.is_ok() == url_accepts(s@),
        r matches Ok(c) ==> c@ == (UrlComponentsModel {
            username: url_username_of(s@),
            host: url_host_of(s@),
            port: url_port_of(s@),
            query: url_query_of(s@),
            fragment: url_fragment_of(s@),
        }),
{
    let u = url::Url::parse(s)?;
    Ok(UrlComponents {
        username: u.username().to_string(),
        host: u.host_str().map(|h| h.to_string()),
        port: u.port(),
        query: u.query_pairs().map(|(k, v)| (k.into_owned(), v.into_owned())).collect(),
        fragment: u.fragment().map(|f| f.to_string()),
    })
}

/// Relies on `percent_encoding::percent_decode_str` with `decode_utf8_lossy`:
/// the decoded text depends on the input alone, and empty input stays empty.
#[verifier::external_body]
pub(crate) fn percent_decode(s: &str) -> (r: String)
    ensures
        r@ == percent_decoded_of(s@),
        s@.len() == 0 ==> r@.len() == 0,
{
    percent_encoding::percent_decode_str(s).decode_utf8_lossy().into_owned()
}

} // verus!
