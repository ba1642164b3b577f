use vstd::prelude::*;

verus! {

/// `candid::Error`: why a Candid message could not be decoded.
#[verifier::external_type_specification]
#[verifier::external_body]
pub struct ExCandidError(candid::Error);

/// Every Candid message begins with the four bytes "DIDL".
pub open spec fn starts_with_magic(b: Seq<u8>) -> bool {
    b.len() >= 4 && b.subrange(0, 4) == seq![0x44u8, 0x49, 0x44, 0x4c]
}

/// The Candid message that carries no values: the magic, an empty type
/// table and an empty argument list.
pub open spec fn empty_message() -> Seq<u8> {
    seq![0x44u8, 0x49, 0x44, 0x4c, 0x00, 0x00]
}

/// Whether `b` is a well-formed Candid message whose values (none of which a
/// receiver expecting no values reads) can be skipped at a cost of at most
/// `skipping_quota`.
pub uninterp spec fn accepted_as_no_values(b: Seq<u8>, skipping_quota: usize) -> bool;

/// Relies on `candid::decode_args_with_config` at the empty tuple, with a
/// `DecoderConfig` whose skipping quota is set. It parses the header, which
/// must begin with "DIDL", then skips every value while charging the quota,
/// and fails on a malformed message, trailing bytes or a spent quota. It may
/// also fail where nesting is deep and the thread's stack is short, so
/// success is promised only for the empty message, whose decoding neither
/// nests nor skips.
#[verifier::external_body]
fn decode_no_values(bytes: &[u8], skipping_quota: usize) -> (r: Result<(), candid::Error>)
    ensures
        r is Ok ==> accepted_as_no_values(bytes@, skipping_quota),
        bytes@ == empty_message() ==> r is Ok,
        !starts_with_magic(bytes@) ==> r is Err,
{
    let mut config = candid::DecoderConfig::new();
    config.set_skipping_quota(skipping_quota);
    candid::decode_args_with_config::<()>(bytes, &config)
}

/// The most work that checking a reply may spend on skipping values that no
/// update method returns. Candid's default decoder sets no such limit; here a
/// reply whose values would cost more to skip is rejected, so that a hostile
/// reply cannot keep the caller busy without end.
pub const REPLY_SKIPPING_QUOTA: usize = 10_000;

/// Checks the reply of an update method, all of which return nothing: the
/// reply must be a well-formed Candid message, whose values are skipped
/// within `REPLY_SKIPPING_QUOTA`. The empty message is always accepted, and
/// bytes that are not a Candid message are always rejected.
pub fn decode_empty_reply(reply: &[u8]) -> (r: Result<(), candid::Error>)
    ensures
        r is Ok ==> accepted_as_no_values(reply@, REPLY_SKIPPING_QUOTA),
        reply@ == empty_message() ==> r is Ok,
        !starts_with_magic(reply@) ==> r is Err,
{
    decode_no_values(reply, REPLY_SKIPPING_QUOTA)
}

} // verus!
