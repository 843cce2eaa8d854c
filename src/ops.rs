use crate::model::{Asset, Error, Release, Repo};
use crate::request::{
    admits, assets_url, get_request, is_create_request, is_plain_request, is_upload_request,
    list_request, create_request, opt_view, releases_url, tag_url, upload_request, url_parses,
    Method, Request,
};
use crate::response::{settle, settled, Reply};
use vstd::prelude::*;

verus! {

/// Whether, once the request for `url` is admitted, `send` was handed a request
/// of which `shape` holds and `r` is what its round trip came to; otherwise
/// `r` is the error of `admits` and nothing was sent.
pub open spec fn exchanged<T, F: FnOnce(Request) -> Result<Reply<T>, Error>>(
    r: Result<T, Error>,
    token: Option<String>,
    url: Seq<char>,
    shape: spec_fn(Request) -> bool,
    send: F,
) -> bool {
    match admits(token, url_parses(url)) {
        Err(e) => r == Err::<T, Error>(e),
        Ok(_) => exists|q: Request, s: Result<Reply<T>, Error>|
            #[trigger] call_ensures(send, (q,), s) && shape(q) && r == settled(s),
    }
}

/// Lists the releases of `repo`, in the server's order, with one GET through
/// `send`.
pub fn list_releases<F>(repo: &Repo, token: &Option<String>, send: F) -> (r: Result<
    Vec<Release>,
    Error,
>) where F: FnOnce(Request) -> Result<Reply<Vec<Release>>, Error>
    requires
        forall|q: Request| call_requires(send, (q,)),
    ensures
        exchanged(
            r,
            *token,
            releases_url(repo.org@, repo.name@),
            |q: Request|
                is_plain_request(q, Method::Get, releases_url(repo.org@, repo.name@), token->Some_0@),
            send,
        ),
{
    match list_request(repo, token) {
        Err(e) => Err(e),
        Ok(q) => {
            let ghost gq = q;
            let s = send(q);
            assert(call_ensures(send, (gq,), s));
            settle(s)
        },
    }
}

/// Fetches the release of `repo` tagged `version`, with one GET through `send`.
pub fn get_release<F>(repo: &Repo, version: &String, token: &Option<String>, send: F) -> (r:
    Result<Release, Error>) where F: FnOnce(Request) -> Result<Reply<Release>, Error>
    requires
        forall|q: Request| call_requires(send, (q,)),
    ensures
        exchanged(
            r,
            *token,
            tag_url(repo.org@, repo.name@, version@),
            |q: Request|
                is_plain_request(
                    q,
                    Method::Get,
                    tag_url(repo.org@, repo.name@, version@),
                    token->Some_0@,
                ),
            send,
        ),
{
    match get_request(repo, version, token) {
        Err(e) => Err(e),
        Ok(q) => {
            let ghost gq = q;
            let s = send(q);
            assert(call_ensures(send, (gq,), s));
            settle(s)
        },
    }
}

/// Creates a release of `repo` tagged `version` (at `target` when given), with
/// one POST through `send`, and yields the release the server made.
pub fn create_release<F>(
    repo: &Repo,
    version: &String,
    target: &Option<String>,
    token: &Option<String>,
    send: F,
) -> (r: Result<Release, Error>) where F: FnOnce(Request) -> Result<Reply<Release>, Error>
    requires
        forall|q: Request| call_requires(send, (q,)),
    ensures
        exchanged(
            r,
            *token,
            releases_url(repo.org@, repo.name@),
            |q: Request|
                is_create_request(
                    q,
                    releases_url(repo.org@, repo.name@),
                    token->Some_0@,
                    version@,
                    opt_view(*target),
                ),
            send,
        ),
{
    match create_request(repo, version, target, token) {
        Err(e) => Err(e),
        Ok(q) => {
            let ghost gq = q;
            let s = send(q);
            assert(call_ensures(send, (gq,), s));
            settle(s)
        },
    }
}

/// The second step of an upload, given how the lookup of the release went: a
/// failed lookup ends the upload with the same error and yields no request;
/// a found release yields the request that posts `file` to it.
pub fn upload_after_get(repo: &Repo, file: &String, token: &Option<String>, got: Result<
    Release,
    Error,
>) -> (r: Result<Request, Error>)
    ensures
        got is Err ==> r == Err::<Request, Error>(got->Err_0),
        got is Ok ==> crate::request::builds(
            r,
            *token,
            assets_url(repo.org@, repo.name@, got->Ok_0.id as nat),
            |q: Request|
                is_upload_request(
                    q,
                    assets_url(repo.org@, repo.name@, got->Ok_0.id as nat),
                    token->Some_0@,
                    file@,
                ),
        ),
{
    match got {
        Err(e) => Err(e),
        Ok(release) => upload_request(repo, release.id, file, token),
    }
}

/// Uploads the local file `file` as an asset of the release of `repo` tagged
/// `version`: first the release is fetched through `fetch`, then, only if that
/// succeeded, the file is posted through `post`.
pub fn upload<G, P>(
    repo: &Repo,
    version: &String,
    file: &String,
    token: &Option<String>,
    fetch: G,
    post: P,
) -> (r: Result<Asset, Error>) where
    G: FnOnce(Request) -> Result<Reply<Release>, Error>,
    P: FnOnce(Request) -> Result<Reply<Asset>, Error>,

    requires
        forall|q: Request| call_requires(fetch, (q,)),
        forall|q: Request| call_requires(post, (q,)),
    ensures
        match admits(*token, url_parses(tag_url(repo.org@, repo.name@, version@))) {
            Err(e) => r == Err::<Asset, Error>(e),
            Ok(_) => exists|q: Request, s: Result<Reply<Release>, Error>|
                #[trigger] call_ensures(fetch, (q,), s) && is_plain_request(
                    q,
                    Method::Get,
                    tag_url(repo.org@, repo.name@, version@),
                    token->Some_0@,
                ) && match settled(s) {
                    Err(e) => r == Err::<Asset, Error>(e),
                    Ok(release) => exchanged(
                        r,
                        *token,
                        assets_url(repo.org@, repo.name@, release.id as nat),
                        |q2: Request|
                            is_upload_request(
                                q2,
                                assets_url(repo.org@, repo.name@, release.id as nat),
                                token->Some_0@,
                                file@,
                            ),
                        post,
                    ),
                },
        },
{
    let got = get_release(repo, version, token, fetch);
    match upload_after_get(repo, file, token, got) {
        Err(e) => Err(e),
        Ok(q) => {
            let ghost gq = q;
            let s = post(q);
            assert(call_ensures(post, (gq,), s));
            settle(s)
        },
    }
}

/// The process exit code for an operation's result: 0 on success, 1 on any
/// error.
pub fn exit_code<T>(r: &Result<T, Error>) -> (c: i32)
    ensures
        r is Ok ==> c == 0,
        r is Err ==> c == 1,
{
    match r {
        Ok(_) => 0,
        Err(_) => 1,
    }
}

} // verus!
