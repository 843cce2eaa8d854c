use crate::model::Error;
use crate::request::{create_fields, has_key};
use crate::response::{interpretation, success_status, Reply};
use vstd::prelude::*;

verus! {

/// The body that creates a release names `target_commitish` exactly when a
/// target is supplied; without one the key is absent, not present with a null.
pub proof fn create_body_names_target_iff_given(version: Seq<char>, target: Option<Seq<char>>)
    ensures
        has_key(create_fields(version, target), "target_commitish"@) <==> target is Some,
        has_key(create_fields(version, target), "tag_name"@),
{
    reveal_strlit("tag_name");
    reveal_strlit("target_commitish");
    let f = create_fields(version, target);
    assert(f[0].0 == "tag_name"@);
    if target is Some {
        assert(f[1].0 == "target_commitish"@);
    } else {
        assert(f[0].0[2] != "target_commitish"@[2]);
    }
}

/// Any status outside 2xx is reported as `RequestFailed` with exactly that
/// status, whatever the body held.
pub proof fn failed_status_is_reported<T>(reply: Reply<T>)
    requires
        !success_status(reply.status),
    ensures
        interpretation(reply) == Err::<T, Error>(Error::RequestFailed(reply.status)),
{
}

/// A 2xx response whose body did not decode is a decoding failure, never a
/// request failure.
pub proof fn undecodable_success_is_decode_failure<T>(reply: Reply<T>)
    requires
        success_status(reply.status),
        reply.body is Err,
    ensures
        interpretation(reply) == Err::<T, Error>(Error::DecodeFailed(reply.body->Err_0)),
        !(interpretation(reply) matches Err(Error::RequestFailed(_))),
{
}

} // verus!
