//! URLs of backends and URIs of the requests that are sent to them.

use vstd::prelude::*;

verus! {

/// The error of building a URI.
#[verifier::external_type_specification]
#[verifier::external_body]
pub struct ExHttpError(http::Error);

/// The error of parsing a URL.
#[verifier::external_type_specification]
#[verifier::external_body]
pub struct ExUrlParseError(url::ParseError);

/// Whether a scheme, an authority and a path with its query make a URI.
pub uninterp spec fn uri_builds(
    scheme: Seq<char>,
    authority: Seq<char>,
    path_and_query: Seq<char>,
) -> bool;

/// What `url::Url::parse` makes of a text: nothing if it is no absolute URL, else the URL's
/// normalized text, its scheme and its authority.
pub uninterp spec fn parsed_url(input: Seq<char>) -> Option<(Seq<char>, Seq<char>, Seq<char>)>;

/// A path with its query as it stands in a URI: a fragment is cut off, and an empty path is `/`.
pub open spec fn target_text(path_and_query: Seq<char>) -> Seq<char> {
    let cut = match path_and_query.index_of_first('#') {
        Some(i) => path_and_query.take(i),
        None => path_and_query,
    };
    if cut.len() == 0 || cut[0] == '?' {
        seq!['/'] + cut
    } else {
        cut
    }
}

/// The text of a URI with a scheme and an authority.
pub open spec fn uri_text(
    scheme: Seq<char>,
    authority: Seq<char>,
    path_and_query: Seq<char>,
) -> Seq<char> {
    scheme + "://"@ + authority + target_text(path_and_query)
}

/// `http::uri::Builder`, given a scheme, an authority and a path with its query, which is trusted
/// to succeed or fail as these three decide, and, where it succeeds, to keep the scheme and the
/// authority letter for letter. The URI is handed out as its text.
#[verifier::external_body]
pub(crate) fn build_uri(scheme: &str, authority: &str, path_and_query: &str) -> (uri: Result<
    String,
    http::Error,
>)
    ensures
        uri is Ok == uri_builds(scheme@, authority@, path_and_query@),
        uri matches Ok(text) ==> text@ == uri_text(scheme@, authority@, path_and_query@),
{
    http::Uri::builder()
        .scheme(scheme)
        .authority(authority)
        .path_and_query(path_and_query)
        .build()
        .map(|uri| uri.to_string())
}

/// `url::Url::parse`, whose result is trusted to depend on the text alone. The URL is handed out
/// as its text, its scheme and its authority.
#[verifier::external_body]
fn parse_url(input: &str) -> (parts: Result<(String, String, String), url::ParseError>)
    ensures
        match parts {
            Ok((text, scheme, authority)) => parsed_url(input@) == Some(
                (text@, scheme@, authority@),
            ),
            Err(_) => parsed_url(input@) is None,
        },
{
    url::Url::parse(input).map(
        |url| (url.as_str().to_owned(), url.scheme().to_owned(), url.authority().to_owned()),
    )
}

/// A text that is no absolute URL.
#[derive(Clone, Copy, Debug, PartialEq, Eq)]
pub struct InvalidUrl;

/// A URL that cannot be completed to the URI of a request, for this cause.
#[derive(Debug)]
pub struct InvalidUri(pub http::Error);

/// The URL of a backend.
#[derive(Debug, PartialEq, Eq)]
pub struct BackendUrl {
    text: String,
    scheme: String,
    authority: String,
}

/// The parts of a URL: its text, its scheme and its authority.
pub struct UrlParts {
    pub text: Seq<char>,
    pub scheme: Seq<char>,
    pub authority: Seq<char>,
}

impl View for BackendUrl {
    type V = UrlParts;

    closed spec fn view(&self) -> UrlParts {
        UrlParts { text: self.text@, scheme: self.scheme@, authority: self.authority@ }
    }
}

impl Clone for BackendUrl {
    fn clone(&self) -> (copy: Self)
        ensures
            copy == *self,
    {
        BackendUrl {
            text: self.text.clone(),
            scheme: self.scheme.clone(),
            authority: self.authority.clone(),
        }
    }
}

impl BackendUrl {
    /// Parses an absolute URL.
    pub fn parse(input: &str) -> (url: Result<BackendUrl, InvalidUrl>)
        ensures
            match url {
                Ok(url) => parsed_url(input@) == Some((url@.text, url@.scheme, url@.authority)),
                Err(InvalidUrl) => parsed_url(input@) is None,
            },
    {
        match parse_url(input) {
            Ok((text, scheme, authority)) => Ok(BackendUrl { text, scheme, authority }),
            Err(_) => Err(InvalidUrl),
        }
    }

    /// The URL in its normalized form.
    pub fn as_str(&self) -> (text: &str)
        ensures
            text@ == self@.text,
    {
        self.text.as_str()
    }

    pub fn scheme(&self) -> (scheme: &str)
        ensures
            scheme@ == self@.scheme,
    {
        self.scheme.as_str()
    }

    pub fn authority(&self) -> (authority: &str)
        ensures
            authority@ == self@.authority,
    {
        self.authority.as_str()
    }

    /// The URI on the same server with another path and query.
    pub fn with_path(&self, path_and_query: &str) -> (uri: Result<String, InvalidUri>)
        ensures
            uri is Ok == uri_builds(self@.scheme, self@.authority, path_and_query@),
            uri matches Ok(text) ==> text@ == uri_text(
                self@.scheme,
                self@.authority,
                path_and_query@,
            ),
    {
        match build_uri(self.scheme.as_str(), self.authority.as_str(), path_and_query) {
            Ok(text) => Ok(text),
            Err(e) => Err(InvalidUri(e)),
        }
    }
}

} // verus!
