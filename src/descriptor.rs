use crate::params::{opt_view, pairs_to_map, ParamMap};
use crate::url_parts::{
    percent_decode, percent_decoded_of, url_accepts, url_components, url_fragment_of,
    url_host_of, url_port_of, url_query_of, url_username_of, UrlComponents, UrlComponentsModel,
};
use vstd::prelude::*;

verus! {

/// The literal that every link starts with.
pub const SCHEME_PREFIX: &'static str = "vless://";

/// The tag of a link that carries no fragment.
pub const DEFAULT_TAG: &'static str = "VLESS-Config";

/// The kinds of failure of a run.
#[derive(Clone, Copy, Debug, PartialEq, Eq, Structural)]
pub enum ErrorKind {
    InvalidScheme,
    MalformedUrl,
    MissingIdentity,
    MissingHost,
    MissingPort,
    DestinationExists,
    PersistenceError,
}

/// A failure of a run, with the underlying cause where there is one.
#[derive(Debug)]
pub enum ConfigError {
    InvalidScheme,
    MalformedUrl(url::ParseError),
    MissingIdentity,
    MissingHost,
    MissingPort,
    DestinationExists,
    PersistenceError(String),
}

impl ConfigError {
    pub open spec fn spec_kind(&self) -> ErrorKind {
        match self {
            ConfigError::InvalidScheme => ErrorKind::InvalidScheme,
            ConfigError::MalformedUrl(_) => ErrorKind::MalformedUrl,
            ConfigError::MissingIdentity => ErrorKind::MissingIdentity,
            ConfigError::MissingHost => ErrorKind::MissingHost,
            ConfigError::MissingPort => ErrorKind::MissingPort,
            ConfigError::DestinationExists => ErrorKind::DestinationExists,
            ConfigError::PersistenceError(_) => ErrorKind::PersistenceError,
        }
    }

    #[verifier::when_used_as_spec(spec_kind)]
    pub fn kind(&self) -> (r: ErrorKind)
        ensures
            r == self.spec_kind(),
    {
        match self {
            ConfigError::InvalidScheme => ErrorKind::InvalidScheme,
            ConfigError::MalformedUrl(_) => ErrorKind::MalformedUrl,
            ConfigError::MissingIdentity => ErrorKind::MissingIdentity,
            ConfigError::MissingHost => ErrorKind::MissingHost,
            ConfigError::MissingPort => ErrorKind::MissingPort,
            ConfigError::DestinationExists => ErrorKind::DestinationExists,
            ConfigError::PersistenceError(_) => ErrorKind::PersistenceError,
        }
    }
}

/// The value of a descriptor.
pub struct DescriptorModel {
    pub identity: Seq<char>,
    pub host: Seq<char>,
    pub port: u16,
    pub params: Map<Seq<char>, Seq<char>>,
    pub tag: Seq<char>,
}

/// What a link says about one server: who connects, where, with which
/// query parameters, and under which label.
#[derive(Debug)]
pub struct ConnectionDescriptor {
    pub identity: String,
    pub host: String,
    pub port: u16,
    pub params: ParamMap,
    pub tag: String,
}

impl View for ConnectionDescriptor {
    type V = DescriptorModel;

    open spec fn view(&self) -> DescriptorModel {
        DescriptorModel {
            identity: self.identity@,
            host: self.host@,
            port: self.port,
            params: self.params@,
            tag: self.tag@,
        }
    }
}

/// Whether `s` begins with `p`.
pub open spec fn starts_with(s: Seq<char>, p: Seq<char>) -> bool {
    p.len() <= s.len() && s.subrange(0, p.len() as int) == p
}

/// The tag of a link with fragment `fragment`: the fragment, percent-decoded,
/// else the default.
pub open spec fn tag_of(fragment: Option<Seq<char>>) -> Seq<char> {
    match fragment {
        Some(f) => percent_decoded_of(f),
        None => DEFAULT_TAG@,
    }
}

/// What the parts of a parsed URL give: an error for the first required
/// part that is missing, else the descriptor.
pub open spec fn parts_model(c: UrlComponentsModel) -> Result<DescriptorModel, ErrorKind> {
    if c.username.len() == 0 {
        Err(ErrorKind::MissingIdentity)
    } else if c.host.is_none() {
        Err(ErrorKind::MissingHost)
    } else if c.port.is_none() {
        Err(ErrorKind::MissingPort)
    } else {
        Ok(
            DescriptorModel {
                identity: c.username,
                host: c.host.unwrap(),
                port: c.port.unwrap(),
                params: pairs_to_map(c.query),
                tag: tag_of(c.fragment),
            },
        )
    }
}

/// The parts that the URL parser gives for the text `s`.
pub open spec fn url_model_of(s: Seq<char>) -> UrlComponentsModel {
    UrlComponentsModel {
        username: url_username_of(s),
        host: url_host_of(s),
        port: url_port_of(s),
        query: url_query_of(s),
        fragment: url_fragment_of(s),
    }
}

/// What parsing the link `s` gives: the first check that fails decides the
/// error, and a link that passes them all gives its descriptor.
pub open spec fn parse_model(s: Seq<char>) -> Result<DescriptorModel, ErrorKind> {
    if !starts_with(s, SCHEME_PREFIX@) {
        Err(ErrorKind::InvalidScheme)
    } else if !url_accepts(s) {
        Err(ErrorKind::MalformedUrl)
    } else {
        parts_model(url_model_of(s))
    }
}

/// Whether `s` begins with `p`, compared character by character.
pub fn has_prefix(s: &str, p: &str) -> (r: bool)
    ensures
        r == starts_with(s@, p@),
{
    let n = p.unicode_len();
    if s.unicode_len() < n {
        return false;
    }
    let mut i: usize = 0;
    while i < n
        invariant
            n == p@.len(),
            n <= s@.len(),
            i <= n,
            forall|j: int| 0 <= j < i ==> s@[j] == p@[j],
        decreases n - i,
    {
        if s.get_char(i) != p.get_char(i) {
            assert(s@.subrange(0, n as int)[i as int] != p@[i as int]);
            return false;
        }
        i = i + 1;
    }
    assert(s@.subrange(0, n as int) =~= p@);
    true
}

/// Parses a link into a descriptor, or reports the first check it fails.
pub fn parse_config(config: &str) -> (r: Result<ConnectionDescriptor, ConfigError>)
    ensures
        match (r, parse_model(config@)) {
            (Ok(d), Ok(m)) => d@ == m,
            (Err(e), Err(k)) => e.kind() == k,
            _ => false,
        },
{
    if !has_prefix(config, SCHEME_PREFIX) {
        return Err(ConfigError::InvalidScheme);
    }
    let parts = match url_components(config) {
        Ok(c) => c,
        Err(e) => return Err(ConfigError::MalformedUrl(e)),
    };
    descriptor_from_parts(parts)
}

/// The tag for a link's fragment: percent-decoded, or the default when the
/// link has none.
pub fn tag_from_fragment(fragment: Option<String>) -> (r: String)
    ensures
        r@ == tag_of(opt_view(fragment)),
{
    match fragment {
        Some(f) => percent_decode(f.as_str()),
        None => String::from_str(DEFAULT_TAG),
    }
}

/// Builds a descriptor from the parts of a parsed URL, or reports the first
/// required part that is missing.
pub fn descriptor_from_parts(parts: UrlComponents) -> (r: Result<ConnectionDescriptor, ConfigError>)
    ensures
        match (r, parts_model(parts@)) {
            (Ok(d), Ok(m)) => d@ == m,
            (Err(e), Err(k)) => e.kind() == k,
            _ => false,
        },
{
    if parts.username.as_str().is_empty() {
        return Err(ConfigError::MissingIdentity);
    }
    let host = match parts.host {
        Some(h) => h,
        None => return Err(ConfigError::MissingHost),
    };
    let port = match parts.port {
        Some(p) => p,
        None => return Err(ConfigError::MissingPort),
    };
    Ok(
        ConnectionDescriptor {
            identity: parts.username,
            host,
            port,
            params: ParamMap::from_pairs(parts.query),
            tag: tag_from_fragment(parts.fragment),
        },
    )
}

} // verus!
