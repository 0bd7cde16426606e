//! The script asset: a name and the byte form of its compiled bytecode.

use crate::codec::{
    decode_chunk, decoded, decoding_of, has_container_header, FORMAT_VERSION, HEADER_LEN,
};
use fusabi_vm::Chunk;
use vstd::prelude::*;

verus! {

/// A loaded script: its name and its bytecode in container form.
///
/// The bytecode is kept as bytes, never as a live chunk, so that the asset
/// can be shared freely between threads and runners.
#[derive(Debug, Clone)]
pub struct FusabiScript {
    /// The script's name, usually the stem of the file it came from.
    pub name: String,
    /// The serialized bytecode.
    pub bytecode: Vec<u8>,
}

/// What a script asset is: its name as text and its bytecode as bytes.
pub struct ScriptModel {
    pub name: Seq<char>,
    pub bytecode: Seq<u8>,
}

impl View for FusabiScript {
    type V = ScriptModel;

    open spec fn view(&self) -> ScriptModel {
        ScriptModel { name: self.name@, bytecode: self.bytecode@ }
    }
}

/// What identifies a `.fzb` file and its format version, with the time the
/// file was written.
///
/// The magic word and the version are those of the container's prefix: a
/// file is only decoded when both are the supported ones.
#[derive(Debug, Clone, Copy, PartialEq, Eq)]
pub struct FusabiHeader {
    /// The container's first four bytes, read as one big-endian word.
    pub magic: u32,
    /// The container's format version.
    pub version: u32,
    /// When the file was written, in seconds since the Unix epoch.
    pub timestamp: u64,
}

/// The magic bytes `F`, `Z`, `B`, 0x01 as one big-endian word.
pub const MAGIC_WORD: u32 = 0x465A_4201;

/// The first four of `bytes`, read as one big-endian word.
pub open spec fn leading_word(bytes: Seq<u8>) -> int
    recommends
        bytes.len() >= 4,
{
    bytes[0] * 0x100_0000 + bytes[1] * 0x1_0000 + bytes[2] * 0x100 + bytes[3]
}

impl FusabiHeader {
    /// Whether the header names the format and the version that the codec
    /// reads.
    pub open spec fn is_supported(self) -> bool {
        self.magic == MAGIC_WORD && self.version == FORMAT_VERSION
    }

    /// The header of a file written now in the supported format.
    pub fn new(timestamp: u64) -> (header: Self)
        ensures
            header.is_supported(),
            header.timestamp == timestamp,
    {
        FusabiHeader { magic: MAGIC_WORD, version: FORMAT_VERSION as u32, timestamp }
    }

    /// Whether the header names the supported format and version.
    pub fn supported(&self) -> (yes: bool)
        ensures
            yes == self.is_supported(),
    {
        self.magic == MAGIC_WORD && self.version == FORMAT_VERSION as u32
    }

    /// Reads the header off the front of a container, and stamps it with
    /// `timestamp`. There is none where the bytes are too few to hold a
    /// prefix. The header read is supported exactly when the bytes open
    /// with the container header.
    pub fn of_container(bytes: &[u8], timestamp: u64) -> (header: Option<Self>)
        ensures
            bytes@.len() < HEADER_LEN ==> header is None,
            bytes@.len() >= HEADER_LEN ==> header == Some(
                FusabiHeader {
                    magic: leading_word(bytes@) as u32,
                    version: bytes@[4] as u32,
                    timestamp,
                },
            ),
            header is Some ==> (header->0.is_supported() <==> has_container_header(bytes@)),
    {
        if bytes.len() < HEADER_LEN {
            return None;
        }
        let magic: u32 = (bytes[0] as u32) * 0x100_0000 + (bytes[1] as u32) * 0x1_0000 + (
        bytes[2] as u32) * 0x100 + (bytes[3] as u32);
        proof {
            let prefix = bytes@.subrange(0, 4);
            assert(prefix[0] == bytes@[0] && prefix[1] == bytes@[1] && prefix[2] == bytes@[2]
                && prefix[3] == bytes@[3]);
            if magic == MAGIC_WORD {
                assert(prefix =~= crate::codec::magic_bytes());
            }
        }
        Some(FusabiHeader { magic, version: bytes[4] as u32, timestamp })
    }
}

impl FusabiScript {
    /// Makes an asset from a name and serialized bytecode, both kept as given.
    pub fn new(name: String, bytecode: Vec<u8>) -> (script: Self)
        ensures
            script.name == name,
            script.bytecode == bytecode,
            script@ == (ScriptModel { name: name@, bytecode: bytecode@ }),
    {
        Self { name, bytecode }
    }

    /// Decodes the bytecode into a chunk the virtual machine can run.
    ///
    /// Fails with the decoder's message on bytes that do not decode; bytes
    /// without the container header never decode. The decoder goes as deep
    /// as the values in the bytes nest.
    pub fn to_chunk(&self) -> (r: Result<Chunk, String>)
        ensures
            decoding_of(r) == decoded(self@.bytecode),
            !has_container_header(self@.bytecode) ==> r is Err,
    {
        decode_chunk(self.bytecode.as_slice())
    }
}

} // verus!
