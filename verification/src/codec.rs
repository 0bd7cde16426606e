//! The bytecode container: the fixed prefix every serialized chunk carries,
//! and the decoding of a container into a chunk.
//!
//! Serializing a chunk is left to the caller: the serializer does not
//! return on every chunk, so its result is handed in where it is needed.

use vstd::prelude::*;

verus! {

/// A compiled unit of bytecode, as the virtual machine defines it.
#[verifier::external_type_specification]
#[verifier::external_body]
pub struct ExChunk(fusabi_vm::Chunk);

/// Length of the container prefix: four magic bytes and one version byte.
pub const HEADER_LEN: usize = 5;

/// The format version this codec reads and writes.
pub const FORMAT_VERSION: u8 = 1;

/// The four bytes that open every bytecode container: `F`, `Z`, `B`, 0x01.
pub open spec fn magic_bytes() -> Seq<u8> {
    seq![0x46u8, 0x5Au8, 0x42u8, 0x01u8]
}

/// Whether `bytes` opens with the magic bytes followed by the supported
/// format version.
pub open spec fn has_container_header(bytes: Seq<u8>) -> bool {
    &&& bytes.len() >= HEADER_LEN
    &&& bytes.subrange(0, 4) == magic_bytes()
    &&& bytes[4] == FORMAT_VERSION
}

/// What decoding `bytes` yields: the chunk, or the decoder's message.
///
/// The chunk is named by its structure: its instructions, its constants
/// and what those hold. Two decodings of the same bytes agree in that, and
/// in nothing else: each has hash maps and shared cells of its own, so
/// nothing that reads the order of a map or the state of a cell may be
/// stated of a chunk.
pub uninterp spec fn decoded(bytes: Seq<u8>) -> Result<fusabi_vm::Chunk, Seq<char>>;

/// The outcome of a decoding call, with the message taken by its view.
pub open spec fn decoding_of(r: Result<fusabi_vm::Chunk, String>) -> Result<fusabi_vm::Chunk, Seq<char>> {
    match r {
        Ok(chunk) => Ok(chunk),
        Err(message) => Err(message@),
    }
}

/// Calls `fusabi_vm::deserialize_chunk`. Trusted: the result is a function
/// of the bytes alone, and bytes that are shorter than the container
/// header, or open with other magic bytes or another version, are refused
/// before any decoding is tried. The decoder goes as deep as the values in
/// the bytes nest.
#[verifier::external_body]
pub(crate) fn decode_chunk(bytes: &[u8]) -> (r: Result<fusabi_vm::Chunk, String>)
    ensures
        decoding_of(r) == decoded(bytes@),
        !has_container_header(bytes@) ==> r is Err,
{
    fusabi_vm::deserialize_chunk(bytes).map_err(|e| e.to_string())
}

/// Whether `bytes` opens with the container header.
pub fn starts_with_header(bytes: &[u8]) -> (present: bool)
    ensures
        present == has_container_header(bytes@),
{
    if bytes.len() < HEADER_LEN {
        return false;
    }
    let present = bytes[0] == 0x46 && bytes[1] == 0x5A && bytes[2] == 0x42 && bytes[3] == 0x01
        && bytes[4] == FORMAT_VERSION;
    proof {
        let prefix = bytes@.subrange(0, 4);
        if present {
            assert(prefix =~= magic_bytes());
        } else if bytes[4] == FORMAT_VERSION {
            assert(prefix[0] == bytes[0] && prefix[1] == bytes[1] && prefix[2] == bytes[2]
                && prefix[3] == bytes[3]);
        }
    }
    present
}

} // verus!
