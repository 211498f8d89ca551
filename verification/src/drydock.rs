use vstd::prelude::*;

use crate::text::{push_signed_decimal, signed_decimal};

verus! {

/// The serialization of the absolute URL that `url::Url::parse` reads from `input`, if it
/// reads one.
pub uninterp spec fn parsed_url(input: Seq<char>) -> Option<Seq<char>>;

/// The path that `url::Url::path` gives of the URL written `url`.
pub uninterp spec fn url_path(url: Seq<char>) -> Seq<char>;

/// The serialization of the URL written `url` after `url::Url::set_path(path)`.
pub uninterp spec fn url_with_path(url: Seq<char>, path: Seq<char>) -> Seq<char>;

/// The serialization of the URL that `url::Url::join` makes of `input` against the URL
/// written `base`, if it makes one.
pub uninterp spec fn joined_url(base: Seq<char>, input: Seq<char>) -> Option<Seq<char>>;

/// Calls `reqwest::Url::parse` (the url crate's `Url::parse`). Trusted: it succeeds exactly
/// when `parsed_url` of the input is some URL, and then returns that URL's serialization;
/// on failure it returns the parse error's message. Which strings are URLs, and how they
/// are normalised, is left to the url crate.
#[verifier::external_body]
fn parse_url(input: &str) -> (r: Result<String, String>)
    ensures
        r is Ok <==> parsed_url(input@) is Some,
        r matches Ok(s) ==> parsed_url(input@) == Some(s@),
{
    reqwest::Url::parse(input).map(String::from).map_err(|e| e.to_string())
}

/// Calls `reqwest::Url::path` on the URL written `url`. Trusted: the result is `url_path` of
/// it (empty for a string that is not a URL).
#[verifier::external_body]
fn path_of_url(url: &str) -> (r: String)
    ensures
        r@ == url_path(url@),
{
    match reqwest::Url::parse(url) {
        Ok(u) => u.path().to_owned(),
        Err(_) => String::new(),
    }
}

/// Calls `reqwest::Url::set_path` on the URL written `url`. Trusted: the result is the
/// serialization `url_with_path` of it (the string unchanged when it is not a URL).
#[verifier::external_body]
fn set_url_path(url: &str, path: &str) -> (r: String)
    ensures
        r@ == url_with_path(url@, path@),
{
    match reqwest::Url::parse(url) {
        Ok(mut u) => {
            u.set_path(path);
            String::from(u)
        },
        Err(_) => url.to_owned(),
    }
}

/// Calls `reqwest::Url::join` with the URL written `base`. Trusted: it succeeds exactly when
/// `joined_url` of the two is some URL, and then returns that URL's serialization; on
/// failure it returns the error's message.
#[verifier::external_body]
fn join_url(base: &str, input: &str) -> (r: Result<String, String>)
    ensures
        r is Ok <==> joined_url(base@, input@) is Some,
        r matches Ok(s) ==> joined_url(base@, input@) == Some(s@),
{
    reqwest::Url::parse(base).and_then(|b| b.join(input)).map(String::from).map_err(|e| e.to_string())
}

/// Why a Drydock URL could not be made.
#[derive(Debug, Clone)]
pub enum DrydockError {
    /// The configured API URL is not an absolute URL.
    InvalidUrl { url: String, reason: String },
    /// An endpoint could not be joined to the API URL.
    InvalidEndpoint { path: String, reason: String },
}

/// A base path that ends with a slash, so that endpoints are joined below it rather than
/// replacing its last segment: an empty path or `/` becomes `/`, a path that ends with `/`
/// stays, any other gets a `/` appended.
pub open spec fn normalized_base_path(path: Seq<char>) -> Seq<char> {
    if path.len() == 0 || path == "/"@ {
        "/"@
    } else if path[path.len() - 1] == '/' {
        path
    } else {
        path + "/"@
    }
}

/// Every normalized base path ends with a slash.
pub proof fn lemma_normalized_base_path_ends_with_slash(path: Seq<char>)
    ensures
        normalized_base_path(path).len() > 0,
        normalized_base_path(path)[normalized_base_path(path).len() - 1] == '/',
{
    reveal_strlit("/");
}

fn normalize_base_path(path: &str) -> (r: String)
    ensures
        r@ == normalized_base_path(path@),
{
    proof {
        reveal_strlit("/");
    }
    let n = path.unicode_len();
    if n == 0 || crate::text::same_text(path, "/") {
        "/".to_owned()
    } else if path.get_char(n - 1) == '/' {
        path.to_owned()
    } else {
        let mut r = path.to_owned();
        r.append("/");
        r
    }
}

/// The URLs of Drydock's REST API.
#[derive(Debug, Clone)]
pub struct DrydockClient {
    base_url: String,
}

/// The base URL made of a configured API URL that parses as `parsed`.
pub open spec fn base_url_of(parsed: Seq<char>) -> Seq<char> {
    url_with_path(parsed, normalized_base_path(url_path(parsed)))
}

impl DrydockClient {
    /// The serialization of the base URL that endpoints are joined to.
    pub closed spec fn base_url_view(&self) -> Seq<char> {
        self.base_url@
    }

    /// The client for the API at `api_url`, whose path is made to end with a slash; fails
    /// when `api_url` is not an absolute URL.
    pub fn new(api_url: &str) -> (r: Result<DrydockClient, DrydockError>)
        ensures
            r is Ok <==> parsed_url(api_url@) is Some,
            r matches Ok(c) ==> c.base_url_view() == base_url_of(parsed_url(api_url@)->0),
            r matches Err(e) ==> e matches DrydockError::InvalidUrl { url, .. } && url@ == api_url@,
    {
        match parse_url(api_url) {
            Ok(parsed) => {
                let path = path_of_url(parsed.as_str());
                let normalized = normalize_base_path(path.as_str());
                let base_url = set_url_path(parsed.as_str(), normalized.as_str());
                Ok(DrydockClient { base_url })
            },
            Err(reason) => Err(DrydockError::InvalidUrl { url: api_url.to_owned(), reason }),
        }
    }

    /// The base URL that endpoints are joined to.
    pub fn base_url(&self) -> (s: &str)
        ensures
            s@ == self.base_url_view(),
    {
        self.base_url.as_str()
    }

    /// The URL of endpoint `path` (such as `runs`) below the base URL.
    pub fn endpoint(&self, path: &str) -> (r: Result<String, DrydockError>)
        ensures
            r is Ok <==> joined_url(self.base_url_view(), path@) is Some,
            r matches Ok(u) ==> joined_url(self.base_url_view(), path@) == Some(u@),
            r matches Err(e) ==> e matches DrydockError::InvalidEndpoint { path: p, .. } && p@ == path@,
    {
        match join_url(self.base_url.as_str(), path) {
            Ok(u) => Ok(u),
            Err(reason) => Err(DrydockError::InvalidEndpoint { path: path.to_owned(), reason }),
        }
    }

    /// The endpoint path of run `run_id`.
    pub fn run_path(run_id: i64) -> (p: String)
        ensures
            p@ == "runs/"@ + signed_decimal(run_id as int),
    {
        let mut p = "runs/".to_owned();
        push_signed_decimal(&mut p, run_id);
        p
    }

    /// The endpoint path of item `item_id`.
    pub fn item_path(item_id: i64) -> (p: String)
        ensures
            p@ == "items/"@ + signed_decimal(item_id as int),
    {
        let mut p = "items/".to_owned();
        push_signed_decimal(&mut p, item_id);
        p
    }

    /// The query of `GET /runs`: the given filters, in the order status, repo, branch.
    pub fn runs_query(status: Option<&str>, repo: Option<&str>, branch: Option<&str>) -> (q: Vec<(String, String)>)
        ensures
            q@.len() == (if status is Some { 1int } else { 0 }) + (if repo is Some { 1int } else { 0 }) + (if branch is Some { 1int } else { 0 }),
            status matches Some(s) ==> q@[0].0@ == "status"@ && q@[0].1@ == s@,
            repo matches Some(r) ==> ({
                let k = if status is Some { 1int } else { 0 };
                q@[k].0@ == "repo"@ && q@[k].1@ == r@
            }),
            branch matches Some(b) ==> q@[q@.len() - 1].0@ == "branch"@ && q@[q@.len() - 1].1@ == b@,
    {
        let mut q: Vec<(String, String)> = Vec::new();
        if let Some(s) = status {
            q.push(("status".to_owned(), s.to_owned()));
        }
        if let Some(r) = repo {
            q.push(("repo".to_owned(), r.to_owned()));
        }
        if let Some(b) = branch {
            q.push(("branch".to_owned(), b.to_owned()));
        }
        q
    }
}

} // verus!
