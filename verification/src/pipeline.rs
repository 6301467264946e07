use vstd::prelude::*;

use crate::surface::MSAA_SAMPLE_COUNT;
use crate::surface::PixelFormat;
use vstd::bytes::spec_u32_from_le_bytes;
use vstd::bytes::u32_from_le_bytes;
use vstd::slice::slice_subrange;

verus! {

/// First word of every SPIR-V module.
pub const SPIRV_MAGIC: u32 = 0x0723_0203;

/// Vertices of the single draw: two triangles spanning the viewport.
pub const FULLSCREEN_VERTEX_COUNT: u32 = 6;

/// Why a shader binary was rejected at load.
#[derive(Clone, Copy, PartialEq, Eq, Structural, Debug)]
pub enum ShaderError {
    /// The byte length is not a multiple of the four-byte word size.
    MisalignedLength,
    /// The module is empty or does not start with the SPIR-V magic word.
    MissingMagic,
}

/// Why the pipeline could not be built.  Any of these is a fatal
/// startup error: the pipeline is foundational and no fallback exists.
#[derive(Clone, Copy, PartialEq, Eq, Structural, Debug)]
pub enum PipelineError {
    InvalidVertexShader(ShaderError),
    InvalidFragmentShader(ShaderError),
}

/// The words of a shader binary, read four bytes at a time,
/// little-endian.
pub open spec fn spirv_words_spec(bytes: Seq<u8>) -> Seq<u32> {
    Seq::new((bytes.len() / 4) as nat, |i: int| spec_u32_from_le_bytes(bytes.subrange(4 * i, 4 * i + 4)))
}

/// A loadable shader binary: whole words, and the SPIR-V magic first.
pub open spec fn spirv_ok(bytes: Seq<u8>) -> bool {
    &&& bytes.len() % 4 == 0
    &&& bytes.len() >= 4
    &&& spec_u32_from_le_bytes(bytes.subrange(0, 4)) == SPIRV_MAGIC
}

/// The error a rejected shader binary produces.
pub open spec fn shader_error_spec(bytes: Seq<u8>) -> ShaderError {
    if bytes.len() % 4 != 0 {
        ShaderError::MisalignedLength
    } else {
        ShaderError::MissingMagic
    }
}

/// Turns a shader binary into its word sequence, validating what load
/// success depends on: whole four-byte words and the SPIR-V magic
/// number up front.  The bytecode beyond that is opaque to this system.
pub fn decode_spirv(bytes: &Vec<u8>) -> (r: Result<Vec<u32>, ShaderError>)
    ensures
        r is Ok <==> spirv_ok(bytes@),
        r matches Ok(w) ==> w@ == spirv_words_spec(bytes@),
        r matches Err(e) ==> e == shader_error_spec(bytes@),
{
    let n: usize = bytes.len();
    if n % 4 != 0 {
        return Err(ShaderError::MisalignedLength);
    }
    let count: usize = n / 4;
    let mut words: Vec<u32> = Vec::new();
    let mut k: usize = 0;
    while k < count
        invariant
            n == bytes@.len(),
            n % 4 == 0,
            count == n / 4,
            k <= count,
            words@.len() == k,
            forall|j: int| 0 <= j < k ==> words@[j] == spec_u32_from_le_bytes(
                bytes@.subrange(4 * j, 4 * j + 4),
            ),
        decreases count - k,
    {
        let word: u32 = u32_from_le_bytes(slice_subrange(bytes.as_slice(), 4 * k, 4 * k + 4));
        words.push(word);
        k = k + 1;
    }
    proof {
        assert(words@ =~= spirv_words_spec(bytes@));
    }
    if words.len() == 0 {
        return Err(ShaderError::MissingMagic);
    }
    let first: u32 = words[0];
    if first != SPIRV_MAGIC {
        return Err(ShaderError::MissingMagic);
    }
    Ok(words)
}

/// The immutable pipeline: shader words, fixed rasterization/blend/
/// topology state and the sample count.  Built once at startup and
/// never rebuilt; only the bound buffers' contents change per frame.
/// Both shader stages use the entry point named `main`.
#[derive(Clone, PartialEq, Eq, Debug)]
pub struct RenderPipelineState {
    pub vertex_words: Vec<u32>,
    pub fragment_words: Vec<u32>,
    pub format: PixelFormat,
    pub sample_count: u32,
    pub vertex_count: u32,
}

impl RenderPipelineState {
    /// The fixed state the builder promises: blend-free single draw of
    /// the full-screen pair of triangles, multisampled at the fixed
    /// count, targeting the surface's format.
    pub open spec fn is_fixed_state(self, format: PixelFormat) -> bool {
        &&& self.format == format
        &&& self.sample_count == MSAA_SAMPLE_COUNT
        &&& self.vertex_count == FULLSCREEN_VERTEX_COUNT
    }
}

/// The bind group: exactly two uniform buffer slots for the fragment
/// stage.  Valid for the process lifetime because the underlying
/// buffers are never reallocated, only overwritten.
#[derive(Clone, Copy, PartialEq, Eq, Structural, Debug)]
pub struct BindGroupModel {
    pub time_binding: u32,
    pub screen_binding: u32,
}

impl BindGroupModel {
    /// Binding 0 carries the time uniform, binding 1 the screen size.
    pub open spec fn is_fixed_layout(self) -> bool {
        &&& self.time_binding == 0
        &&& self.screen_binding == 1
    }
}

/// Assembles the fixed render pipeline from the two precompiled shader
/// binaries, the target color format and the fixed sample count.
pub struct PipelineBuilder {
    pub vertex_shader: Vec<u8>,
    pub fragment_shader: Vec<u8>,
    pub format: PixelFormat,
}

impl PipelineBuilder {
    pub fn new(vertex_shader: Vec<u8>, fragment_shader: Vec<u8>, format: PixelFormat) -> (r:
        PipelineBuilder)
        ensures
            r.vertex_shader == vertex_shader,
            r.fragment_shader == fragment_shader,
            r.format == format,
    {
        PipelineBuilder { vertex_shader, fragment_shader, format }
    }

    /// Produces the immutable pipeline state and the bind group model,
    /// or the startup error when a shader binary is malformed.  The
    /// vertex stage is checked first.
    pub fn build(&self) -> (r: Result<(RenderPipelineState, BindGroupModel), PipelineError>)
        ensures
            r is Ok <==> spirv_ok(self.vertex_shader@) && spirv_ok(self.fragment_shader@),
            r matches Ok(p) ==> {
                &&& p.0.is_fixed_state(self.format)
                &&& p.0.vertex_words@ == spirv_words_spec(self.vertex_shader@)
                &&& p.0.fragment_words@ == spirv_words_spec(self.fragment_shader@)
                &&& p.1.is_fixed_layout()
            },
            !spirv_ok(self.vertex_shader@) ==> r == Result::<(RenderPipelineState, BindGroupModel),
                PipelineError>::Err(
                PipelineError::InvalidVertexShader(shader_error_spec(self.vertex_shader@)),
            ),
            spirv_ok(self.vertex_shader@) && !spirv_ok(self.fragment_shader@) ==> r == Result::<(
                RenderPipelineState,
                BindGroupModel,
            ), PipelineError>::Err(
                PipelineError::InvalidFragmentShader(shader_error_spec(self.fragment_shader@)),
            ),
    {
        let vertex_words = match decode_spirv(&self.vertex_shader) {
            Ok(w) => w,
            Err(e) => {
                return Err(PipelineError::InvalidVertexShader(e));
            },
        };
        let fragment_words = match decode_spirv(&self.fragment_shader) {
            Ok(w) => w,
            Err(e) => {
                return Err(PipelineError::InvalidFragmentShader(e));
            },
        };
        let pipeline = RenderPipelineState {
            vertex_words,
            fragment_words,
            format: self.format,
            sample_count: MSAA_SAMPLE_COUNT,
            vertex_count: FULLSCREEN_VERTEX_COUNT,
        };
        let bind_group = BindGroupModel { time_binding: 0, screen_binding: 1 };
        Ok((pipeline, bind_group))
    }
}

} // verus!
