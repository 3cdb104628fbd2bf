//! Calls into the nois crate: integers and sub-randomness derived from a
//! beacon's randomness, and the proxy's job id limit.
use vstd::prelude::*;
use vstd::utf8::encode_utf8;
use cosmwasm_std::StdError;
use crate::text::json_string;

verus! {

/// The integer in `[begin, end]` that `nois::int_in_range` derives from a
/// randomness.
pub uninterp spec fn nois_int_in_range(randomness: Seq<u8>, begin: u32, end: u32) -> u32;

/// The `count` integers in `[begin, end]` that `nois::ints_in_range` derives
/// from a randomness.
pub uninterp spec fn nois_ints_in_range(randomness: Seq<u8>, count: usize, begin: u32, end: u32) -> Seq<u32>;

/// The first sub-randomness that the provider of
/// `nois::sub_randomness_with_key` gives for a randomness and a key (the
/// key read as its UTF-8 bytes).
pub uninterp spec fn nois_first_sub_randomness(randomness: Seq<u8>, key: Seq<char>) -> Seq<u8>;

/// `nois::int_in_range`, which panics on an empty range. What it claims: the
/// result is [`nois_int_in_range`] of the arguments, and lies in the range,
/// as the crate documents.
#[verifier::external_body]
pub(crate) fn int_in_range(randomness: [u8; 32], begin: u32, end: u32) -> (r: u32)
    requires
        begin <= end,
    ensures
        r == nois_int_in_range(randomness@, begin, end),
        begin <= r <= end,
{
    nois::int_in_range(randomness, begin, end)
}

/// `nois::ints_in_range`, which panics on an empty range. What it claims:
/// the result is [`nois_ints_in_range`] of the arguments; it has `count`
/// elements, each in the range, as the crate documents.
#[verifier::external_body]
pub(crate) fn ints_in_range(randomness: [u8; 32], count: usize, begin: u32, end: u32) -> (r: Vec<u32>)
    requires
        begin <= end,
    ensures
        r@ == nois_ints_in_range(randomness@, count, begin, end),
        r@.len() == count,
        forall|i: int| 0 <= i < count ==> begin <= #[trigger] r@[i] <= end,
{
    nois::ints_in_range(randomness, count, begin, end)
}

/// The first value that the provider of `nois::sub_randomness_with_key`
/// gives. What it claims: it is [`nois_first_sub_randomness`] of the
/// randomness and the key.
#[verifier::external_body]
pub(crate) fn first_sub_randomness(randomness: [u8; 32], key: &String) -> (r: [u8; 32])
    ensures
        r@ == nois_first_sub_randomness(randomness@, key@),
{
    let mut provider = nois::sub_randomness_with_key(randomness, key.as_bytes());
    provider.provide()
}

/// `nois::MAX_JOB_ID_LEN`, the most bytes a job id may have: 64.
#[verifier::external_body]
pub(crate) fn max_job_id_len() -> (n: usize)
    ensures
        n == 64,
{
    nois::MAX_JOB_ID_LEN
}

/// JSON of the proxy's `GetNextRandomness` execute message.
pub open spec fn json_randomness_request(job_id: Seq<char>) -> Seq<char> {
    "{\"get_next_randomness\":{\"job_id\":"@ + json_string(job_id) + "}}"@
}

/// `cosmwasm_std::to_binary` of `nois::ProxyExecuteMsg::GetNextRandomness`.
/// What it claims: it succeeds, with the UTF-8 bytes of
/// [`json_randomness_request`].
#[verifier::external_body]
#[allow(deprecated)]
pub(crate) fn randomness_request_binary(job_id: &String) -> (r: Result<Vec<u8>, StdError>)
    ensures
        r is Ok,
        r matches Ok(b) ==> b@ == encode_utf8(json_randomness_request(job_id@)),
{
    let msg = nois::ProxyExecuteMsg::GetNextRandomness { job_id: job_id.clone() };
    cosmwasm_std::to_binary(&msg).map(|b| b.0)
}

} // verus!
