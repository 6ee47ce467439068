use vstd::prelude::*;
use vstd::string::StringExecFns;
use crate::text::is_exactly;
use url::{ParseError, Url};

verus! {

/// A parsed URL of the url crate, carried through opaque.
#[verifier::external_type_specification]
#[verifier::external_body]
pub struct ExUrl(Url);

/// The url crate's reason for refusing a text, carried through opaque.
#[verifier::external_type_specification]
#[verifier::external_body]
pub struct ExParseError(ParseError);

/// Relies on url::Url::parse to read the text as an absolute URL or refuse it.
pub assume_specification[ Url::parse ](input: &str) -> Result<Url, ParseError>;

/// Relies on url::Url::scheme for the scheme of a parsed URL.
pub assume_specification<'a>[ Url::scheme ](u: &'a Url) -> &'a str;

/// Relies on url::Url::host_str for the host of a parsed URL, where it has one.
pub assume_specification<'a>[ Url::host_str ](u: &'a Url) -> Option<&'a str>;

/// Relies on url::Url::path for the path of a parsed URL.
pub assume_specification<'a>[ Url::path ](u: &'a Url) -> &'a str;

/// Relies on url::Url::query for the query of a parsed URL, where it has one.
pub assume_specification<'a>[ Url::query ](u: &'a Url) -> Option<&'a str>;

/// What `str::to_uppercase` makes of a text.
pub uninterp spec fn upper_of(s: Seq<char>) -> Seq<char>;

/// Relies on str::to_uppercase: the upper-case form of the text, which depends
/// on its characters alone.
#[verifier::external_body]
fn uppercase(s: &str) -> (r: String)
    ensures
        r@ == upper_of(s@),
{
    s.to_uppercase()
}

/// The scheme of an outgoing request.
#[derive(Debug, PartialEq, Eq)]
pub enum Scheme {
    Http,
    Https,
    Other(String),
}

/// The method of an outgoing request.
#[derive(Debug, PartialEq, Eq)]
pub enum Method {
    Get,
    Post,
    Put,
    Delete,
    Patch,
    Head,
    Options,
    Connect,
    Trace,
    Other(String),
}

/// The parts of a URL that a request is built from.
#[derive(Debug)]
pub struct UrlParts {
    pub scheme: String,
    pub domain: String,
    pub path_and_query: String,
}

#[derive(Debug)]
pub enum UrlError {
    /// The text is not a URL.
    Invalid(ParseError),
    /// The URL names no host.
    MissingHost,
}

/// Reads a scheme name: `http` and `https` exactly, any other kept as text.
pub fn parse_scheme(scheme: &str) -> (r: Scheme)
    ensures
        scheme@ == seq!['h', 't', 't', 'p'] ==> r == Scheme::Http,
        scheme@ == seq!['h', 't', 't', 'p', 's'] ==> r == Scheme::Https,
        scheme@ != seq!['h', 't', 't', 'p'] && scheme@ != seq!['h', 't', 't', 'p', 's'] ==> (
        r matches Scheme::Other(s) && s@ == scheme@),
{
    let http = ['h', 't', 't', 'p'];
    let https = ['h', 't', 't', 'p', 's'];
    assert(http@ =~= seq!['h', 't', 't', 'p']);
    assert(https@ =~= seq!['h', 't', 't', 'p', 's']);
    assert(http@.len() != https@.len());
    if is_exactly(scheme, &http) {
        Scheme::Http
    } else if is_exactly(scheme, &https) {
        Scheme::Https
    } else {
        Scheme::Other(scheme.to_owned())
    }
}

/// The method that an upper-case name stands for, if it is a standard one.
pub open spec fn known_method(u: Seq<char>) -> Option<Method> {
    if u == seq!['G', 'E', 'T'] {
        Some(Method::Get)
    } else if u == seq!['P', 'O', 'S', 'T'] {
        Some(Method::Post)
    } else if u == seq!['P', 'U', 'T'] {
        Some(Method::Put)
    } else if u == seq!['D', 'E', 'L', 'E', 'T', 'E'] {
        Some(Method::Delete)
    } else if u == seq!['P', 'A', 'T', 'C', 'H'] {
        Some(Method::Patch)
    } else if u == seq!['H', 'E', 'A', 'D'] {
        Some(Method::Head)
    } else if u == seq!['O', 'P', 'T', 'I', 'O', 'N', 'S'] {
        Some(Method::Options)
    } else if u == seq!['C', 'O', 'N', 'N', 'E', 'C', 'T'] {
        Some(Method::Connect)
    } else if u == seq!['T', 'R', 'A', 'C', 'E'] {
        Some(Method::Trace)
    } else {
        None
    }
}

/// The method for `given`, with its upper-case form `upper`: a standard
/// method where `upper` names one, else `given` itself, unchanged.
pub fn method_from_upper(upper: &str, given: &str) -> (r: Method)
    ensures
        known_method(upper@) matches Some(m) ==> r == m,
        known_method(upper@) is None ==> (r matches Method::Other(s) && s@ == given@),
{
    let get = ['G', 'E', 'T'];
    let post = ['P', 'O', 'S', 'T'];
    let put = ['P', 'U', 'T'];
    let delete = ['D', 'E', 'L', 'E', 'T', 'E'];
    let patch = ['P', 'A', 'T', 'C', 'H'];
    let head = ['H', 'E', 'A', 'D'];
    let options = ['O', 'P', 'T', 'I', 'O', 'N', 'S'];
    let connect = ['C', 'O', 'N', 'N', 'E', 'C', 'T'];
    let trace = ['T', 'R', 'A', 'C', 'E'];
    assert(get@ =~= seq!['G', 'E', 'T']);
    assert(post@ =~= seq!['P', 'O', 'S', 'T']);
    assert(put@ =~= seq!['P', 'U', 'T']);
    assert(delete@ =~= seq!['D', 'E', 'L', 'E', 'T', 'E']);
    assert(patch@ =~= seq!['P', 'A', 'T', 'C', 'H']);
    assert(head@ =~= seq!['H', 'E', 'A', 'D']);
    assert(options@ =~= seq!['O', 'P', 'T', 'I', 'O', 'N', 'S']);
    assert(connect@ =~= seq!['C', 'O', 'N', 'N', 'E', 'C', 'T']);
    assert(trace@ =~= seq!['T', 'R', 'A', 'C', 'E']);
    if is_exactly(upper, &get) {
        Method::Get
    } else if is_exactly(upper, &post) {
        Method::Post
    } else if is_exactly(upper, &put) {
        Method::Put
    } else if is_exactly(upper, &delete) {
        Method::Delete
    } else if is_exactly(upper, &patch) {
        Method::Patch
    } else if is_exactly(upper, &head) {
        Method::Head
    } else if is_exactly(upper, &options) {
        Method::Options
    } else if is_exactly(upper, &connect) {
        Method::Connect
    } else if is_exactly(upper, &trace) {
        Method::Trace
    } else {
        Method::Other(given.to_owned())
    }
}

/// Reads a method name in any case; a name outside the standard set is kept
/// as given.
pub fn parse_method(method: &str) -> (r: Method)
    ensures
        known_method(upper_of(method@)) matches Some(m) ==> r == m,
        known_method(upper_of(method@)) is None ==> (r matches Method::Other(s) && s@ == method@),
{
    let upper = uppercase(method);
    method_from_upper(upper.as_str(), method)
}

/// The request parts of a parsed URL: its scheme, its host, and its path
/// followed directly by its query.
pub fn url_parts(scheme: &str, host: Option<&str>, path: &str, query: Option<&str>) -> (r: Result<
    UrlParts,
    UrlError,
>)
    ensures
        host is None <==> r is Err,
        r matches Err(e) ==> e is MissingHost,
        r matches Ok(p) ==> p.scheme@ == scheme@ && (host matches Some(h) && p.domain@ == h@)
            && p.path_and_query@ == path@ + match query {
            Some(q) => q@,
            None => Seq::<char>::empty(),
        },
{
    match host {
        None => Err(UrlError::MissingHost),
        Some(h) => {
            let mut pq = path.to_owned();
            match query {
                Some(q) => pq.append(q),
                None => {},
            }
            Ok(UrlParts { scheme: scheme.to_owned(), domain: h.to_owned(), path_and_query: pq })
        },
    }
}

/// Splits a URL into its request parts; an unreadable URL or one without a
/// host is refused.
pub fn parse_url(url: &str) -> (r: Result<UrlParts, UrlError>)
    ensures
        r matches Err(e) ==> e is Invalid || e is MissingHost,
{
    match Url::parse(url) {
        Err(e) => Err(UrlError::Invalid(e)),
        Ok(u) => url_parts(u.scheme(), u.host_str(), u.path(), u.query()),
    }
}

} // verus!
