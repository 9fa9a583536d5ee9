//! Shaders: where their compiled code is found, and how it is decoded into
//! the words that a shader module is made from.

use vstd::prelude::*;
use vstd::string::StringExecFns;

verus! {

/// The first word of every SPIR-V module.
pub const SPIRV_MAGIC: u32 = 0x0723_0203;

/// The pipeline stage that a shader runs in.
#[derive(Clone, Copy, Debug, PartialEq, Eq, Structural)]
pub enum ShaderStage {
    Vertex,
    Fragment,
}

#[derive(Clone, Copy, Debug, PartialEq, Eq, Structural)]
pub enum ShaderError {
    /// There is no compiled code for the shader.
    NotCompiled,
    /// The code is empty or its length is no multiple of four bytes.
    BadLength,
    /// The code does not begin with the SPIR-V magic number, in either byte order.
    MissingMagic,
}

/// The code of one shader, ready to make a shader module from.
#[derive(Clone, Debug, PartialEq, Eq)]
pub struct Shader {
    /// The file that the code was taken from.
    pub path: String,
    pub code: Vec<u32>,
    pub stage: ShaderStage,
}

/// `std::io::Error`, in which `ash::util::read_spv` says why it failed.
/// Nothing is said of what it holds.
#[verifier::external_type_specification]
#[verifier::external_body]
pub struct ExIoError(std::io::Error);

/// Word `i` of `bytes`, read with the lowest byte first.
pub open spec fn word_le(bytes: Seq<u8>, i: int) -> int {
    bytes[4 * i] + bytes[4 * i + 1] * 0x100 + bytes[4 * i + 2] * 0x1_0000 + bytes[4 * i + 3]
        * 0x100_0000
}

/// Word `i` of `bytes`, read with the highest byte first.
pub open spec fn word_be(bytes: Seq<u8>, i: int) -> int {
    bytes[4 * i + 3] + bytes[4 * i + 2] * 0x100 + bytes[4 * i + 1] * 0x1_0000 + bytes[4 * i]
        * 0x100_0000
}

/// Whether `bytes` are whole words, at least one.
pub open spec fn whole_words(bytes: Seq<u8>) -> bool {
    bytes.len() >= 4 && bytes.len() % 4 == 0
}

/// Whether `bytes` are a SPIR-V module, written in either byte order.
pub open spec fn is_spirv(bytes: Seq<u8>) -> bool {
    whole_words(bytes) && (word_le(bytes, 0) == SPIRV_MAGIC || word_be(bytes, 0) == SPIRV_MAGIC)
}

/// Whether `words` are the words of the SPIR-V module `bytes`, each read in
/// the byte order in which the first word is the magic number.
pub open spec fn spirv_words(bytes: Seq<u8>, words: Seq<u32>) -> bool {
    &&& is_spirv(bytes)
    &&& words.len() * 4 == bytes.len()
    &&& forall|i: int|
        0 <= i < words.len() ==> #[trigger] words[i] == if word_le(bytes, 0) == SPIRV_MAGIC {
            word_le(bytes, i)
        } else {
            word_be(bytes, i)
        }
}

/// `ash::util::read_spv`, on a cursor over `bytes`. It succeeds exactly on
/// input that is made of whole words, at least one, the first of which is
/// the magic number in one of the two byte orders; it then returns every
/// word in that byte order.
#[verifier::external_body]
fn read_spv(bytes: &[u8]) -> (r: Result<Vec<u32>, std::io::Error>)
    ensures
        match r {
            Ok(words) => spirv_words(bytes@, words@),
            Err(_) => !is_spirv(bytes@),
        },
{
    ash::util::read_spv(&mut std::io::Cursor::new(bytes))
}

impl Shader {
    /// Where the compiled code of the shader named `filename` lies.
    pub open spec fn location(filename: Seq<char>) -> Seq<char> {
        "assets/bin/"@ + filename + ".spv"@
    }

    /// The path of the file that holds the compiled code of the shader
    /// named `filename`.
    pub fn path(filename: &str) -> (r: String)
        ensures
            r@ == Self::location(filename@),
    {
        let mut r = String::from_str("assets/bin/");
        r.append(filename);
        r.append(".spv");
        r
    }

    /// Decodes SPIR-V: `bytes` must be whole words, at least one, and
    /// begin with the magic number in either byte order. The words are
    /// returned in the byte order that the magic number shows.
    pub fn decode(bytes: &[u8]) -> (r: Result<Vec<u32>, ShaderError>)
        ensures
            match r {
                Ok(words) => spirv_words(bytes@, words@),
                Err(ShaderError::BadLength) => !whole_words(bytes@),
                Err(ShaderError::MissingMagic) => whole_words(bytes@) && !is_spirv(bytes@),
                Err(ShaderError::NotCompiled) => false,
            },
    {
        if bytes.len() < 4 || bytes.len() % 4 != 0 {
            return Err(ShaderError::BadLength);
        }
        match read_spv(bytes) {
            Ok(words) => Ok(words),
            Err(_) => Err(ShaderError::MissingMagic),
        }
    }

    /// The shader named `filename` for stage `stage`, from the contents of
    /// the file at `Shader::path(filename)`; `None` says that there is no
    /// such file.
    pub fn from_filename(filename: &str, stage: ShaderStage, contents: Option<&[u8]>) -> (r: Result<
        Shader,
        ShaderError,
    >)
        ensures
            match r {
                Ok(shader) => contents matches Some(bytes) && spirv_words(bytes@, shader.code@)
                    && shader.stage == stage && shader.path@ == Self::location(filename@),
                Err(ShaderError::NotCompiled) => contents.is_none(),
                Err(ShaderError::BadLength) => contents matches Some(bytes) && !whole_words(bytes@),
                Err(ShaderError::MissingMagic) => contents matches Some(bytes) && whole_words(bytes@)
                    && !is_spirv(bytes@),
            },
    {
        match contents {
            None => Err(ShaderError::NotCompiled),
            Some(bytes) => match Self::decode(bytes) {
                Ok(code) => Ok(Shader { path: Self::path(filename), code, stage }),
                Err(e) => Err(e),
            },
        }
    }
}

} // verus!
