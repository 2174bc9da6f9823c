//! Reading no more than a limit of bytes.

use crate::text;
use vstd::prelude::*;
use vstd::utf8::{decode_utf8, valid_utf8};

verus! {

/// How many bytes of lyrics that lie beside a track are read at most.
pub const LOCAL_LYRICS_MAX_BYTES: usize = 2097152;

/// How many bytes of an answer with lyrics are read at most.
pub const LRCLIB_RESPONSE_MAX_BYTES: usize = 2097152;

/// How many whole mebibytes a number of bytes makes.
pub fn bytes_to_mib(bytes: usize) -> (result: usize)
    ensures
        result == bytes / 1048576,
{
    bytes / 1024 / 1024
}

/// What is told where more than a limit is read.
pub open spec fn limit_text(context: Seq<char>, limit: usize) -> Seq<char> {
    context + " exceeded "@ + text::decimal((limit / 1048576) as nat) + " MiB limit"@
}

/// What is told where more than a limit is read.
pub fn limit_error(context: &str, limit: usize) -> (result: String)
    ensures
        result@ == limit_text(context@, limit),
{
    let mut result: String = text::concat(context, " exceeded ");
    result.push_str(text::decimal_text(bytes_to_mib(limit) as u64).as_str());
    result.push_str(" MiB limit");
    result
}

/// Checks a length that was announced before anything is read.
pub fn check_announced_length(length: Option<u64>, limit: usize, context: &str) -> (result: Result<
    (),
    String,
>)
    ensures
        match result {
            Ok(_) => length matches Some(length) ==> length <= limit,
            Err(error) => length matches Some(length) && length > limit && error@ == limit_text(
                context@,
                limit,
            ),
        },
{
    if let Some(length) = length {
        if length > limit as u64 {
            return Err(limit_error(context, limit));
        }
    }
    Ok(())
}

/// Adds what was read to what was read before, unless that makes more than the limit.
pub fn extend_bounded(bytes: &mut Vec<u8>, chunk: &[u8], limit: usize, context: &str) -> (result:
    Result<(), String>)
    ensures
        match result {
            Ok(_) => old(bytes)@.len() + chunk@.len() <= limit && final(bytes)@ == old(bytes)@
                + chunk@,
            Err(error) => old(bytes)@.len() + chunk@.len() > limit && final(bytes)@ == old(bytes)@
                && error@ == limit_text(context@, limit),
        },
{
    let fits: bool = match bytes.len().checked_add(chunk.len()) {
        Some(length) => length <= limit,
        None => false,
    };
    if !fits {
        return Err(limit_error(context, limit));
    }
    bytes.extend_from_slice(chunk);
    Ok(())
}

/// The text that was read, where it is one.
pub fn bounded_text(bytes: Vec<u8>) -> (result: Option<String>)
    ensures
        result.deep_view() == (if valid_utf8(bytes@) {
            Some(decode_utf8(bytes@))
        } else {
            None
        }),
{
    text::decode_bytes(bytes)
}

} // verus!
