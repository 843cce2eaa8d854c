use crate::model::{Error, Repo};
use vstd::prelude::*;
use vstd::string::*;

verus! {

/// reqwest's `Url` (from the url crate), carried opaquely.
#[verifier::external_type_specification]
#[verifier::external_body]
pub struct ExUrl(reqwest::Url);

/// reqwest's `UrlError` (the url crate's `ParseError`), carried opaquely.
#[verifier::external_type_specification]
#[verifier::external_body]
pub struct ExUrlError(reqwest::UrlError);

/// Whether the text parses as an absolute URL.
pub uninterp spec fn url_parses(s: Seq<char>) -> bool;

/// Relies on `url::Url::parse` (re-exported by reqwest): it succeeds exactly
/// when the text is a well-formed absolute URL, which depends on the text alone.
#[verifier::external_body]
fn parse_url(s: &str) -> (r: Result<reqwest::Url, reqwest::UrlError>)
    ensures
        r is Ok <==> url_parses(s@),
{
    reqwest::Url::parse(s)
}

/// HTTP methods the client issues.
#[derive(Debug, Clone, Copy, PartialEq, Eq, Structural)]
pub enum Method {
    Get,
    Post,
}

/// What a request carries after its headers.
#[derive(Debug, Clone, PartialEq, Eq)]
pub enum Body {
    /// No body.
    Empty,
    /// A JSON object with these string-valued keys, in this order.
    Json(Vec<(String, String)>),
    /// The raw bytes of the local file at this path.
    File(String),
}

/// A fully-addressed, authenticated request, consumed once by a transport.
#[derive(Debug, Clone, PartialEq, Eq)]
pub struct Request {
    pub method: Method,
    pub url: String,
    pub token: String,
    pub query: Vec<(String, String)>,
    pub content_type: Option<String>,
    pub body: Body,
}

/// The key/value pairs as character sequences.
pub open spec fn pairs_view(v: Seq<(String, String)>) -> Seq<(Seq<char>, Seq<char>)> {
    v.map_values(|p: (String, String)| (p.0@, p.1@))
}

/// Root of the repository resources on the API host.
pub open spec fn api_base() -> Seq<char> {
    "https://api.github.com/repos/"@
}

/// Root of the repository resources on the upload host.
pub open spec fn upload_base() -> Seq<char> {
    "https://uploads.github.com/repos/"@
}

/// `{org}/{repo}` under a host's repository root.
pub open spec fn repo_path(org: Seq<char>, repo: Seq<char>) -> Seq<char> {
    org + "/"@ + repo
}

/// Address of a repository's release list (also where releases are created).
pub open spec fn releases_url(org: Seq<char>, repo: Seq<char>) -> Seq<char> {
    api_base() + repo_path(org, repo) + "/releases"@
}

/// Address of the release tagged `version`.
pub open spec fn tag_url(org: Seq<char>, repo: Seq<char>, version: Seq<char>) -> Seq<char> {
    api_base() + repo_path(org, repo) + "/releases/tags/"@ + version
}

/// Address to which assets of release `id` are uploaded.
pub open spec fn assets_url(org: Seq<char>, repo: Seq<char>, id: nat) -> Seq<char> {
    upload_base() + repo_path(org, repo) + "/releases/"@ + decimal(id) + "/assets"@
}

/// The numeral of a single digit `d < 10`.
pub open spec fn digit_text(d: nat) -> Seq<char> {
    if d == 0 {
        "0"@
    } else if d == 1 {
        "1"@
    } else if d == 2 {
        "2"@
    } else if d == 3 {
        "3"@
    } else if d == 4 {
        "4"@
    } else if d == 5 {
        "5"@
    } else if d == 6 {
        "6"@
    } else if d == 7 {
        "7"@
    } else if d == 8 {
        "8"@
    } else {
        "9"@
    }
}

/// The decimal numeral of `n`, without leading zeros.
pub open spec fn decimal(n: nat) -> Seq<char>
    decreases n,
{
    if n < 10 {
        digit_text(n)
    } else {
        decimal(n / 10) + digit_text(n % 10)
    }
}

fn digit(d: u64) -> (r: &'static str)
    requires
        d < 10,
    ensures
        r@ == digit_text(d as nat),
{
    if d == 0 {
        "0"
    } else if d == 1 {
        "1"
    } else if d == 2 {
        "2"
    } else if d == 3 {
        "3"
    } else if d == 4 {
        "4"
    } else if d == 5 {
        "5"
    } else if d == 6 {
        "6"
    } else if d == 7 {
        "7"
    } else if d == 8 {
        "8"
    } else {
        "9"
    }
}

/// Appends the decimal numeral of `n` to `s`.
pub fn push_decimal(s: &mut String, n: u64)
    ensures
        final(s)@ == old(s)@ + decimal(n as nat),
    decreases n,
{
    if n >= 10 {
        push_decimal(s, n / 10);
        s.append(digit(n % 10));
        proof {
            assert(old(s)@ + decimal((n / 10) as nat) + digit_text((n % 10) as nat) == old(s)@
                + decimal(n as nat));
        }
    } else {
        s.append(digit(n));
    }
}

/// The release-list address of `repo`.
pub fn list_url(repo: &Repo) -> (r: String)
    ensures
        r@ == releases_url(repo.org@, repo.name@),
{
    let mut s = String::from_str("https://api.github.com/repos/");
    s.append(repo.org.as_str());
    s.append("/");
    s.append(repo.name.as_str());
    s.append("/releases");
    s
}

/// The address of the release tagged `version` in `repo`.
pub fn tag_release_url(repo: &Repo, version: &str) -> (r: String)
    ensures
        r@ == tag_url(repo.org@, repo.name@, version@),
{
    let mut s = String::from_str("https://api.github.com/repos/");
    s.append(repo.org.as_str());
    s.append("/");
    s.append(repo.name.as_str());
    s.append("/releases/tags/");
    s.append(version);
    s
}

/// The address that takes assets of release `id` of `repo`.
pub fn asset_upload_url(repo: &Repo, id: u64) -> (r: String)
    ensures
        r@ == assets_url(repo.org@, repo.name@, id as nat),
{
    let mut s = String::from_str("https://uploads.github.com/repos/");
    s.append(repo.org.as_str());
    s.append("/");
    s.append(repo.name.as_str());
    s.append("/releases/");
    push_decimal(&mut s, id);
    s.append("/assets");
    s
}

/// The fields of the JSON object that creates a release: `tag_name` always,
/// `target_commitish` only when a target is given.
pub open spec fn create_fields(version: Seq<char>, target: Option<Seq<char>>) -> Seq<(Seq<char>, Seq<char>)> {
    match target {
        Some(t) => seq![("tag_name"@, version), ("target_commitish"@, t)],
        None => seq![("tag_name"@, version)],
    }
}

/// An optional string as an optional character sequence.
pub open spec fn opt_view(o: Option<String>) -> Option<Seq<char>> {
    match o {
        Some(s) => Some(s@),
        None => None,
    }
}

/// Whether some field of `fields` is named `key`.
pub open spec fn has_key(fields: Seq<(Seq<char>, Seq<char>)>, key: Seq<char>) -> bool {
    exists|i: int| 0 <= i < fields.len() && #[trigger] fields[i].0 == key
}

/// The fields of the body that creates a release tagged `version`.
pub fn create_body(version: &String, target: &Option<String>) -> (r: Vec<(String, String)>)
    ensures
        pairs_view(r@) == create_fields(version@, opt_view(*target)),
{
    let mut v: Vec<(String, String)> = Vec::new();
    v.push((String::from_str("tag_name"), version.clone()));
    match target {
        Some(t) => {
            v.push((String::from_str("target_commitish"), t.clone()));
        },
        None => {},
    }
    assert(pairs_view(v@) =~= create_fields(version@, opt_view(*target)));
    v
}

/// Whether `q` is a `method` request for `url`, bearing `token`, with no
/// query, no content-type override, and no body.
pub open spec fn is_plain_request(q: Request, method: Method, url: Seq<char>, token: Seq<char>) -> bool {
    &&& q.method == method
    &&& q.url@ == url
    &&& q.token@ == token
    &&& q.query@.len() == 0
    &&& q.content_type is None
    &&& q.body is Empty
}

/// What building a request for `url` comes to, given whether the token is
/// present and whether `url` parses: a missing token is reported first, then a
/// malformed address.
pub open spec fn admits(token: Option<String>, url_ok: bool) -> Result<(), Error> {
    if token is None {
        Err(Error::MissingCredential)
    } else if !url_ok {
        Err(Error::MalformedUrl)
    } else {
        Ok(())
    }
}

/// Builds an authenticated `method` request for `url`, given whether `url`
/// parses as an absolute URL.
pub fn request_from(method: Method, url: String, token: &Option<String>, url_ok: bool) -> (r:
    Result<Request, Error>)
    ensures
        admits(*token, url_ok) is Err ==> r == Err::<Request, Error>(admits(*token, url_ok)->Err_0),
        admits(*token, url_ok) is Ok ==> r is Ok && is_plain_request(
            r->Ok_0,
            method,
            url@,
            token->Some_0@,
        ),
{
    match token {
        None => Err(Error::MissingCredential),
        Some(t) => {
            if !url_ok {
                Err(Error::MalformedUrl)
            } else {
                Ok(
                    Request {
                        method,
                        url,
                        token: t.clone(),
                        query: Vec::new(),
                        content_type: None,
                        body: Body::Empty,
                    },
                )
            }
        },
    }
}

/// Builds an authenticated `method` request for `url`. A missing token fails
/// with `MissingCredential`; an address that is not a well-formed absolute URL
/// fails with `MalformedUrl`.
pub fn authenticated_request(method: Method, url: String, token: &Option<String>) -> (r: Result<
    Request,
    Error,
>)
    ensures
        admits(*token, url_parses(url@)) is Err ==> r == Err::<Request, Error>(
            admits(*token, url_parses(url@))->Err_0,
        ),
        admits(*token, url_parses(url@)) is Ok ==> r is Ok && is_plain_request(
            r->Ok_0,
            method,
            url@,
            token->Some_0@,
        ),
{
    let url_ok = parse_url(url.as_str()).is_ok();
    request_from(method, url, token, url_ok)
}

/// What building a request for `url` yields: the error of `admits` when the
/// token is missing or `url` does not parse, otherwise a request of which
/// `shape` holds.
pub open spec fn builds(
    r: Result<Request, Error>,
    token: Option<String>,
    url: Seq<char>,
    shape: spec_fn(Request) -> bool,
) -> bool {
    match admits(token, url_parses(url)) {
        Err(e) => r == Err::<Request, Error>(e),
        Ok(_) => r is Ok && shape(r->Ok_0),
    }
}

/// Whether `q` posts the JSON object that creates release `version` (with
/// `target`) to `url`, bearing `token`.
pub open spec fn is_create_request(
    q: Request,
    url: Seq<char>,
    token: Seq<char>,
    version: Seq<char>,
    target: Option<Seq<char>>,
) -> bool {
    &&& q.method == Method::Post
    &&& q.url@ == url
    &&& q.token@ == token
    &&& q.query@.len() == 0
    &&& q.content_type is None
    &&& q.body matches Body::Json(f) && pairs_view(f@) == create_fields(version, target)
}

/// The content type the upload request declares; the body is nonetheless the
/// file's raw bytes.
pub open spec fn upload_content_type() -> Seq<char> {
    "multipart/form-data"@
}

/// Whether `q` posts the local file `file` to `url`, bearing `token`, naming the
/// asset by the query parameter `name`.
pub open spec fn is_upload_request(q: Request, url: Seq<char>, token: Seq<char>, file: Seq<char>) -> bool {
    &&& q.method == Method::Post
    &&& q.url@ == url
    &&& q.token@ == token
    &&& pairs_view(q.query@) == seq![("name"@, file)]
    &&& q.content_type matches Some(c) && c@ == upload_content_type()
    &&& q.body matches Body::File(p) && p@ == file
}

/// The request that lists the releases of `repo`.
pub fn list_request(repo: &Repo, token: &Option<String>) -> (r: Result<Request, Error>)
    ensures
        builds(
            r,
            *token,
            releases_url(repo.org@, repo.name@),
            |q: Request|
                is_plain_request(q, Method::Get, releases_url(repo.org@, repo.name@), token->Some_0@),
        ),
{
    authenticated_request(Method::Get, list_url(repo), token)
}

/// The request that fetches the release of `repo` tagged `version`.
pub fn get_request(repo: &Repo, version: &String, token: &Option<String>) -> (r: Result<
    Request,
    Error,
>)
    ensures
        builds(
            r,
            *token,
            tag_url(repo.org@, repo.name@, version@),
            |q: Request|
                is_plain_request(
                    q,
                    Method::Get,
                    tag_url(repo.org@, repo.name@, version@),
                    token->Some_0@,
                ),
        ),
{
    authenticated_request(Method::Get, tag_release_url(repo, version.as_str()), token)
}

/// The request that creates a release of `repo` tagged `version`, at `target`
/// when one is given.
pub fn create_request(
    repo: &Repo,
    version: &String,
    target: &Option<String>,
    token: &Option<String>,
) -> (r: Result<Request, Error>)
    ensures
        builds(
            r,
            *token,
            releases_url(repo.org@, repo.name@),
            |q: Request|
                is_create_request(
                    q,
                    releases_url(repo.org@, repo.name@),
                    token->Some_0@,
                    version@,
                    opt_view(*target),
                ),
        ),
{
    match authenticated_request(Method::Post, list_url(repo), token) {
        Ok(q) => {
            let mut q = q;
            q.body = Body::Json(create_body(version, target));
            Ok(q)
        },
        Err(e) => Err(e),
    }
}

/// The request that uploads the local file `file` as an asset of release `id`
/// of `repo`.
pub fn upload_request(repo: &Repo, id: u64, file: &String, token: &Option<String>) -> (r: Result<
    Request,
    Error,
>)
    ensures
        builds(
            r,
            *token,
            assets_url(repo.org@, repo.name@, id as nat),
            |q: Request|
                is_upload_request(
                    q,
                    assets_url(repo.org@, repo.name@, id as nat),
                    token->Some_0@,
                    file@,
                ),
        ),
{
    match authenticated_request(Method::Post, asset_upload_url(repo, id), token) {
        Ok(q) => {
            let mut q = q;
            let mut query: Vec<(String, String)> = Vec::new();
            query.push((String::from_str("name"), file.clone()));
            assert(pairs_view(query@) =~= seq![("name"@, file@)]);
            q.query = query;
            q.content_type = Some(String::from_str("multipart/form-data"));
            q.body = Body::File(file.clone());
            Ok(q)
        },
        Err(e) => Err(e),
    }
}

} // verus!
