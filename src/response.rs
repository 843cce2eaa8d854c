use crate::model::Error;
use vstd::prelude::*;

verus! {

/// A response as the transport hands it over: the status code, and the body
/// decoded into the shape the caller expects, or the decoder's message.
#[derive(Debug, PartialEq, Eq)]
pub struct Reply<T> {
    pub status: u16,
    pub body: Result<T, String>,
}

/// The 2xx range, the sole success condition.
pub open spec fn success_status(status: u16) -> bool {
    200 <= status < 300
}

/// What a response comes to: any status outside 2xx is `RequestFailed` with
/// that status, whatever the body; a 2xx status gives the decoded value, or
/// `DecodeFailed` with the decoder's message.
pub open spec fn interpretation<T>(reply: Reply<T>) -> Result<T, Error> {
    if !success_status(reply.status) {
        Err(Error::RequestFailed(reply.status))
    } else {
        match reply.body {
            Ok(v) => Ok(v),
            Err(m) => Err(Error::DecodeFailed(m)),
        }
    }
}

/// What a round trip comes to: a transport failure passes through unchanged,
/// a response is interpreted.
pub open spec fn settled<T>(sent: Result<Reply<T>, Error>) -> Result<T, Error> {
    match sent {
        Ok(reply) => interpretation(reply),
        Err(e) => Err(e),
    }
}

/// Whether `status` lies in the 2xx range.
pub fn is_success(status: u16) -> (r: bool)
    ensures
        r == success_status(status),
{
    200 <= status && status < 300
}

/// Classifies a response and yields its decoded body on success.
pub fn interpret<T>(reply: Reply<T>) -> (r: Result<T, Error>)
    ensures
        r == interpretation(reply),
{
    if !is_success(reply.status) {
        return Err(Error::RequestFailed(reply.status));
    }
    match reply.body {
        Ok(v) => Ok(v),
        Err(m) => Err(Error::DecodeFailed(m)),
    }
}

/// Passes a transport failure through and interprets a response.
pub fn settle<T>(sent: Result<Reply<T>, Error>) -> (r: Result<T, Error>)
    ensures
        r == settled(sent),
{
    match sent {
        Ok(reply) => interpret(reply),
        Err(e) => Err(e),
    }
}

} // verus!
