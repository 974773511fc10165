//! Loading of shader binaries: the check and decoding of a blob of bytes
//! into the 32-bit words of the instruction stream.

use vstd::prelude::*;
use vstd::string::StringExecFns;

verus! {

/// Why a shader could not be loaded.
#[derive(Clone, Copy, Debug, PartialEq, Eq, Structural)]
pub enum ShaderError {
    /// There is no binary under the name asked for.
    NotFound,
    /// The binary is not a whole number of 32-bit words.
    InvalidData,
}

/// The word that four bytes spell, least significant byte first.
pub open spec fn word_of(b0: u8, b1: u8, b2: u8, b3: u8) -> u32 {
    (b0 + b1 * 0x100 + b2 * 0x1_0000 + b3 * 0x100_0000) as u32
}

/// The words that a blob of bytes spells, four bytes to the word.
pub open spec fn words_of(bytes: Seq<u8>) -> Seq<u32> {
    Seq::new(
        (bytes.len() / 4) as nat,
        |i: int| word_of(bytes[4 * i], bytes[4 * i + 1], bytes[4 * i + 2], bytes[4 * i + 3]),
    )
}

/// The name of the file that holds the binary of the shader `file`.
pub fn shader_file_name(file: &str) -> (r: String)
    ensures
        r@ == file@ + ".hlsl.spirv"@,
{
    String::from_str(file).concat(".hlsl.spirv")
}

/// Decodes the binary of a shader from the contents of its file, if the
/// file was found.
///
/// Fails with `NotFound` exactly when there are no contents, and with
/// `InvalidData` exactly when their length is not a multiple of four.
pub fn get_shader(contents: Option<&[u8]>) -> (r: Result<Vec<u32>, ShaderError>)
    ensures
        match r {
            Ok(words) => contents matches Some(bytes) && bytes@.len() % 4 == 0 && words@
                == words_of(bytes@),
            Err(ShaderError::NotFound) => contents is None,
            Err(ShaderError::InvalidData) => contents matches Some(bytes) && bytes@.len() % 4
                != 0,
        },
{
    let bytes: &[u8] = match contents {
        Some(bytes) => bytes,
        None => {
            return Err(ShaderError::NotFound);
        },
    };
    if bytes.len() % 4 != 0 {
        return Err(ShaderError::InvalidData);
    }
    let count: usize = bytes.len() / 4;
    let mut words: Vec<u32> = Vec::new();
    let mut i: usize = 0;
    while i < count
        invariant
            count == bytes@.len() / 4,
            bytes@.len() % 4 == 0,
            bytes@.len() <= usize::MAX,
            i <= count,
            words@.len() == i,
            forall|k: int| 0 <= k < i ==> #[trigger] words@[k] == words_of(bytes@)[k],
        decreases count - i,
    {
        assert(4 * i + 3 < bytes@.len());
        let b0: u32 = bytes[4 * i] as u32;
        let b1: u32 = bytes[4 * i + 1] as u32;
        let b2: u32 = bytes[4 * i + 2] as u32;
        let b3: u32 = bytes[4 * i + 3] as u32;
        words.push(b0 + b1 * 0x100 + b2 * 0x1_0000 + b3 * 0x100_0000);
        i = i + 1;
    }
    assert(words@ =~= words_of(bytes@));
    Ok(words)
}

} // verus!
