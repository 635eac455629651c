use vstd::prelude::*;

use crate::error::{NxError, NxResult};

verus! {

/// The first word of every SPIR-V module.
pub const SPIRV_MAGIC: u32 = 0x0723_0203;

/// Shader stage bit of the vertex stage.
pub const SHADER_STAGE_VERTEX_BIT: u32 = 1;

/// Shader stage bit of the fragment stage.
pub const SHADER_STAGE_FRAGMENT_BIT: u32 = 0x10;

/// The 32-bit word held by bytes `4i .. 4i+4`, least significant byte first.
pub open spec fn word_le(b: Seq<u8>, i: int) -> u32 {
    (b[4 * i] as int + b[4 * i + 1] as int * 0x100 + b[4 * i + 2] as int * 0x1_0000 + b[4 * i + 3] as int
        * 0x100_0000) as u32
}

/// The 32-bit word held by bytes `4i .. 4i+4`, most significant byte first.
pub open spec fn word_be(b: Seq<u8>, i: int) -> u32 {
    (b[4 * i + 3] as int + b[4 * i + 2] as int * 0x100 + b[4 * i + 1] as int * 0x1_0000 + b[4 * i] as int
        * 0x100_0000) as u32
}

/// The bytes make a SPIR-V module: whole words, the first of which is the
/// magic number in either byte order.
pub open spec fn spirv_valid(b: Seq<u8>) -> bool {
    &&& b.len() % 4 == 0
    &&& b.len() >= 4
    &&& (word_le(b, 0) == SPIRV_MAGIC || word_be(b, 0) == SPIRV_MAGIC)
}

/// The words of a SPIR-V module, read in the byte order that makes the first
/// word the magic number.
pub open spec fn spirv_words(b: Seq<u8>) -> Seq<u32> {
    if word_le(b, 0) == SPIRV_MAGIC {
        Seq::new((b.len() / 4) as nat, |i: int| word_le(b, i))
    } else {
        Seq::new((b.len() / 4) as nat, |i: int| word_be(b, i))
    }
}

/// Relies on ash::util::read_spv: it fails when the length is not a multiple
/// of four or the first word is not the magic number in either byte order,
/// and otherwise returns the words, byte-swapped when the magic number was.
/// Since it swaps whenever the first word reads as the swapped magic number,
/// the result does not depend on the host's byte order.
#[verifier::external_body]
fn read_spv_words(data: &[u8]) -> (r: Result<Vec<u32>, String>)
    ensures
        r is Ok <==> spirv_valid(data@),
        r is Ok ==> r->Ok_0@ == spirv_words(data@),
{
    match ash::util::read_spv(&mut std::io::Cursor::new(data)) {
        Ok(words) => Ok(words),
        Err(e) => Err(e.to_string()),
    }
}

/// A SPIR-V module, as the words the driver reads.
#[derive(Clone, Debug, PartialEq, Eq)]
pub struct Spirv {
    pub data: Vec<u32>,
}

impl Spirv {
    /// The module held by a binary blob; `IoError` when the blob is not a
    /// well-formed word stream that starts with the SPIR-V magic number.
    pub fn from_raw(data: &[u8]) -> (r: NxResult<Spirv>)
        ensures
            r is Ok <==> spirv_valid(data@),
            r is Ok ==> r->Ok_0.data@ == spirv_words(data@),
            r is Err ==> r->Err_0 is IoError,
    {
        match read_spv_words(data) {
            Ok(words) => Ok(Spirv { data: words }),
            Err(msg) => Err(NxError::IoError(msg)),
        }
    }
}

/// A shader module, by its driver handle.
#[derive(Clone, Copy, Debug, PartialEq, Eq, Structural)]
pub struct Shader {
    pub handle: u64,
}

impl Shader {
    pub fn from_raw(handle: u64) -> (s: Self)
        ensures
            s.handle == handle,
    {
        Shader { handle }
    }
}

/// Indicates shader type.
#[derive(Clone, Copy, Debug, PartialEq, Eq, Structural)]
pub enum ShaderStage {
    /// Vertex shader
    Vertex,
    /// Fragment shader
    Fragment,
}

impl ShaderStage {
    pub open spec fn flags_spec(self) -> u32 {
        match self {
            ShaderStage::Vertex => SHADER_STAGE_VERTEX_BIT,
            ShaderStage::Fragment => SHADER_STAGE_FRAGMENT_BIT,
        }
    }

    /// The driver's stage bit of this stage.
    pub fn to_flags(self) -> (f: u32)
        ensures
            f == self.flags_spec(),
    {
        match self {
            ShaderStage::Vertex => SHADER_STAGE_VERTEX_BIT,
            ShaderStage::Fragment => SHADER_STAGE_FRAGMENT_BIT,
        }
    }
}

/// Register shader information.
/// Required for pipeline creation.
#[derive(Clone, Copy, Debug, PartialEq, Eq)]
pub struct ShaderStageDescriptor<'a> {
    pub shaders: Option<Shader>,
    pub entry_point: &'a str,
    pub stage: ShaderStage,
}

impl<'a> ShaderStageDescriptor<'a> {
    /// Create an empty descriptor: no shader, entry point `main`, vertex stage.
    pub fn empty() -> (d: Self)
        ensures
            d.shaders is None,
            d.entry_point@ == "main"@,
            d.stage == ShaderStage::Vertex,
    {
        ShaderStageDescriptor { shaders: None, entry_point: "main", stage: ShaderStage::Vertex }
    }

    /// Shader to be registered.
    pub fn shaders(self, shaders: &Shader) -> (d: Self)
        ensures
            d == (Self { shaders: Some(*shaders), ..self }),
    {
        Self { shaders: Some(*shaders), ..self }
    }

    /// Entry point name of shader.
    pub fn entry_point(self, entry_point: &'a str) -> (d: Self)
        ensures
            d == (Self { entry_point, ..self }),
    {
        Self { entry_point, ..self }
    }

    /// Shader stage.
    pub fn stage(self, stage: ShaderStage) -> (d: Self)
        ensures
            d == (Self { stage, ..self }),
    {
        Self { stage, ..self }
    }
}

} // verus!
