//! Records, requests and responses, and URL validation.

use vstd::prelude::*;

verus! {

#[verifier::external_type_specification]
#[verifier::external_body]
pub struct ExUrl(url::Url);

#[verifier::external_type_specification]
#[verifier::external_body]
pub struct ExParseError(url::ParseError);

/// Whether the `url` crate parses `s` as an absolute URL.
pub uninterp spec fn parses_as_url(s: Seq<char>) -> bool;

/// Relies on `url::Url::parse`: it succeeds exactly on the strings it
/// accepts as absolute URLs, and depends on nothing but the string.
#[verifier::external_body]
fn parse_url(s: &str) -> (r: Result<url::Url, url::ParseError>)
    ensures
        r.is_ok() == parses_as_url(s@),
{
    url::Url::parse(s)
}

/// Whether `url` is a well-formed absolute URL.
pub fn is_valid_url(url: &str) -> (r: bool)
    ensures
        r == parses_as_url(url@),
{
    parse_url(url).is_ok()
}

/// `host`, a slash, then `code`: the public address of a short link.
pub open spec fn public_url(host: Seq<char>, code: Seq<char>) -> Seq<char> {
    host + seq!['/'] + code
}

/// Builds the public address of the short link `code` served from `host`.
pub fn short_url(host: &str, code: &str) -> (r: String)
    ensures
        r@ == public_url(host@, code@),
{
    let slash = "/";
    proof {
        reveal_strlit("/");
    }
    let r = host.to_owned().concat(slash).concat(code);
    assert(r@ =~= public_url(host@, code@));
    r
}

/// Request to shorten one URL.
#[derive(Clone, Debug, PartialEq, Eq)]
pub struct ShortenRequest {
    pub url: String,
}

impl ShortenRequest {
    /// Parses the requested URL.
    pub fn validate(&self) -> (r: Result<url::Url, url::ParseError>)
        ensures
            r.is_ok() == parses_as_url(self.url@),
    {
        parse_url(self.url.as_str())
    }
}

/// The short URL handed back for a shortened URL.
#[derive(Clone, Debug, PartialEq, Eq)]
pub struct ShortenResponse {
    pub short_url: String,
}

impl ShortenResponse {
    /// The response for `code` served from `host`.
    pub fn new(host: &str, code: &str) -> (r: ShortenResponse)
        ensures
            r.short_url@ == public_url(host@, code@),
    {
        ShortenResponse { short_url: short_url(host, code) }
    }
}

/// A stored short link with its policy.
///
/// Times are seconds since the Unix epoch. `id` tells records apart in the
/// store that holds them.
#[derive(Clone, Debug, PartialEq, Eq)]
pub struct Link {
    pub id: u128,
    pub original_url: String,
    pub short_code: String,
    pub created_at: i64,
    pub expires_at: Option<i64>,
    pub password_hash: Option<String>,
    pub click_limit: Option<i32>,
    pub is_active: bool,
}

/// The value of a [`Link`], with its strings as character sequences.
pub struct LinkView {
    pub id: u128,
    pub original_url: Seq<char>,
    pub short_code: Seq<char>,
    pub created_at: i64,
    pub expires_at: Option<i64>,
    pub password_hash: Option<Seq<char>>,
    pub click_limit: Option<i32>,
    pub is_active: bool,
}

/// The characters of an optional string.
pub open spec fn opt_view(s: Option<String>) -> Option<Seq<char>> {
    match s {
        Some(v) => Some(v@),
        None => None,
    }
}

/// A copy of an optional string.
pub fn copy_opt(s: &Option<String>) -> (r: Option<String>)
    ensures
        opt_view(r) == opt_view(*s),
{
    match s {
        Some(v) => Some(v.clone()),
        None => None,
    }
}

impl View for Link {
    type V = LinkView;

    open spec fn view(&self) -> LinkView {
        LinkView {
            id: self.id,
            original_url: self.original_url@,
            short_code: self.short_code@,
            created_at: self.created_at,
            expires_at: self.expires_at,
            password_hash: opt_view(self.password_hash),
            click_limit: self.click_limit,
            is_active: self.is_active,
        }
    }
}

impl Link {
    /// A copy of this record.
    pub fn duplicate(&self) -> (r: Link)
        ensures
            r@ == self@,
    {
        Link {
            id: self.id,
            original_url: self.original_url.clone(),
            short_code: self.short_code.clone(),
            created_at: self.created_at,
            expires_at: self.expires_at,
            password_hash: copy_opt(&self.password_hash),
            click_limit: self.click_limit,
            is_active: self.is_active,
        }
    }
}

/// Request to create a short link with an optional policy.
#[derive(Clone, Debug, PartialEq, Eq)]
pub struct CreateLinkRequest {
    pub original_url: String,
    pub custom_alias: Option<String>,
    pub expires_at: Option<i64>,
    pub password: Option<String>,
    pub click_limit: Option<i32>,
}

impl CreateLinkRequest {
    /// A request for `original_url` with no alias and no policy.
    pub fn plain(original_url: &str) -> (r: CreateLinkRequest)
        ensures
            r.original_url@ == original_url@,
            r.custom_alias is None,
            r.expires_at is None,
            r.password is None,
            r.click_limit is None,
    {
        CreateLinkRequest {
            original_url: original_url.to_owned(),
            custom_alias: None,
            expires_at: None,
            password: None,
            click_limit: None,
        }
    }
}

/// The answer to a created short link.
#[derive(Clone, Debug, PartialEq, Eq)]
pub struct CreateLinkResponse {
    pub short_url: String,
    pub expires_at: Option<i64>,
}

impl CreateLinkResponse {
    /// The response for `link` served from `host`.
    pub fn for_link(host: &str, link: &Link) -> (r: CreateLinkResponse)
        ensures
            r.short_url@ == public_url(host@, link.short_code@),
            r.expires_at == link.expires_at,
    {
        CreateLinkResponse {
            short_url: short_url(host, link.short_code.as_str()),
            expires_at: link.expires_at,
        }
    }
}

} // verus!
