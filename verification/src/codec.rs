//! The store's file format: `bincode`'s standard encoding of the list of
//! entries.

use vstd::prelude::*;

verus! {

/// What `bincode` reports when it cannot encode.
#[verifier::external_type_specification]
#[verifier::external_body]
pub struct ExEncodeError(bincode::error::EncodeError);

/// What `bincode` reports when it cannot decode.
#[verifier::external_type_specification]
#[verifier::external_body]
pub struct ExDecodeError(bincode::error::DecodeError);

/// The bytes that `bincode::encode_to_vec` gives for a list of pairs of
/// strings under `bincode::config::standard()`, or `None` where it reports
/// an error.
pub uninterp spec fn bincode_encoding(entries: Seq<(Seq<char>, Seq<char>)>) -> Option<Seq<u8>>;

/// The list of pairs of strings that `bincode::decode_from_slice` gives for
/// `bytes` under `bincode::config::standard()`, or `None` where it reports
/// an error. The name is used for at most `MAX_FILE_BYTES` bytes only: there
/// the limit that the decoder is run with plays no part.
pub uninterp spec fn bincode_decoding(bytes: Seq<u8>) -> Option<Seq<(Seq<char>, Seq<char>)>>;

/// The most that the decoder may claim while it reads one file.
pub const DECODE_LIMIT: usize = 0x400_0000;

/// The longest file that is read alike on every machine, and is sure to be
/// read back as it was written.
pub const MAX_FILE_BYTES: usize = 0x20_0000;

/// `bincode::encode_to_vec` on a list of pairs of strings, under
/// `bincode::config::standard()`.
///
/// The contract only names the result: the bytes depend on the strings and
/// their order and on nothing else.
#[verifier::external_body]
pub(crate) fn encode_entries(entries: &Vec<(String, String)>) -> (encoded: Result<
    Vec<u8>,
    bincode::error::EncodeError,
>)
    ensures
        match encoded {
            Ok(bytes) => bincode_encoding(entries.deep_view()) == Some(bytes@),
            Err(_) => bincode_encoding(entries.deep_view()) is None,
        },
{
    bincode::encode_to_vec(entries, bincode::config::standard())
}

/// `bincode::decode_from_slice` to a list of pairs of strings, under
/// `bincode::config::standard()` with a limit of `DECODE_LIMIT` bytes.
///
/// With the limit the decoder refuses a length prefix that asks for more
/// memory than the limit, where without it it would try to allocate it.
///
/// The decoder counts 8 bytes for each length prefix, the size of a pair in
/// memory for each pair that a prefix announces, and one for each byte of
/// text. A pair takes at most 48 bytes in memory and at least 2 in the file,
/// so input of `MAX_FILE_BYTES` or less that can be decoded at all stays
/// below the limit, whatever the size of a pair on the machine. Longer input
/// may be refused on one machine and decoded on another.
///
/// The contract claims two things of input of at most `MAX_FILE_BYTES`
/// bytes. Its result is named: it depends on the bytes alone. And decoding
/// undoes encoding: where the bytes are what `encode_entries` gave for some
/// list, that list comes back. Of longer input nothing is claimed. Bytes
/// behind the encoded list are not looked at.
#[verifier::external_body]
pub(crate) fn decode_entries(bytes: &[u8]) -> (decoded: Result<
    (Vec<(String, String)>, usize),
    bincode::error::DecodeError,
>)
    ensures
        bytes@.len() <= MAX_FILE_BYTES ==> match decoded {
            Ok(found) => bincode_decoding(bytes@) == Some(found.0.deep_view()),
            Err(_) => bincode_decoding(bytes@) is None,
        },
        match decoded {
            Ok(found) => forall|entries: Seq<(Seq<char>, Seq<char>)>|
                #[trigger] bincode_encoding(entries) == Some(bytes@) && bytes@.len()
                    <= MAX_FILE_BYTES ==> found.0.deep_view() == entries,
            Err(_) => forall|entries: Seq<(Seq<char>, Seq<char>)>|
                bytes@.len() <= MAX_FILE_BYTES ==> #[trigger] bincode_encoding(entries) != Some(
                    bytes@,
                ),
        },
{
    bincode::decode_from_slice(bytes, bincode::config::standard().with_limit::<DECODE_LIMIT>())
}

} // verus!
