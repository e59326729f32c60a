use vstd::prelude::*;

verus! {

/// `soroban_sdk::Bytes`: a byte string that lives with the host. Nothing of
/// its inside is known here; what it holds goes by [`bytes_content`].
#[verifier::external_type_specification]
#[verifier::external_body]
pub struct ExBytes(soroban_sdk::Bytes);

/// The bytes that a host byte string holds, in order.
pub uninterp spec fn bytes_content(bytes: soroban_sdk::Bytes) -> Seq<u8>;

/// How long a host byte string is.
///
/// Calls `soroban_sdk::Bytes::len` and claims of it what its documentation
/// says: the result is the number of bytes that the string holds.
#[verifier::external_body]
pub(crate) fn payload_len(bytes: &soroban_sdk::Bytes) -> (len: u32)
    ensures
        len as nat == bytes_content(*bytes).len(),
{
    bytes.len()
}

} // verus!
