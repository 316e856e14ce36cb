//! The source side of the translation: a shader project as the remote
//! sharing service describes it, after the document has been parsed into
//! plain values.

use vstd::prelude::*;

verus! {

/// One channel input of a render pass, as the remote service declares it:
/// either a sibling pass's previous-frame buffer output or a live camera.
///
/// For a `Buffer` input, `channel` selects one of the four named buffers
/// ("Buffer A" to "Buffer D"); values outside 0..=3 are rejected during
/// translation. For a `Webcam` input the field is carried by the document
/// but has no meaning.
#[derive(Clone, Copy, Debug, PartialEq, Eq, Structural)]
pub enum InputConfig {
    Buffer { channel: i64 },
    Webcam { channel: i64 },
}

/// One render pass of the source project: a name (unique within the
/// project), the raw shader source text, and the ordered channel inputs.
/// The position of an input in `inputs` is its channel slot.
#[derive(Clone, Debug, PartialEq, Eq)]
pub struct RenderPassConfig {
    pub name: String,
    pub code: String,
    pub inputs: Vec<InputConfig>,
}

/// The name the remote service gives the project; it becomes the target
/// project's folder name.
#[derive(Clone, Debug, PartialEq, Eq)]
pub struct ShaderInfo {
    pub name: String,
}

/// A whole source project: its info block and its passes in declared
/// execution order. The last pass is the final/output pass.
#[derive(Clone, Debug, PartialEq, Eq)]
pub struct ShaderConfig {
    pub info: ShaderInfo,
    pub renderpass: Vec<RenderPassConfig>,
}

/// The top-level remote document: a single `Shader` object.
#[derive(Clone, Debug, PartialEq, Eq)]
pub struct ShadertoyConfig {
    pub shader: ShaderConfig,
}

/// Mathematical value of a `RenderPassConfig`.
#[verifier::ext_equal]
pub struct PassView {
    pub name: Seq<char>,
    pub code: Seq<char>,
    pub inputs: Seq<InputConfig>,
}

/// Mathematical value of a `ShaderConfig`: the project name and the
/// declared pass sequence.
#[verifier::ext_equal]
pub struct ShaderView {
    pub name: Seq<char>,
    pub passes: Seq<PassView>,
}

impl View for RenderPassConfig {
    type V = PassView;

    open spec fn view(&self) -> PassView {
        PassView { name: self.name@, code: self.code@, inputs: self.inputs@ }
    }
}

impl DeepView for RenderPassConfig {
    type V = PassView;

    open spec fn deep_view(&self) -> PassView {
        self.view()
    }
}

impl View for ShaderConfig {
    type V = ShaderView;

    open spec fn view(&self) -> ShaderView {
        ShaderView { name: self.info.name@, passes: self.renderpass.deep_view() }
    }
}

impl View for ShadertoyConfig {
    type V = ShaderView;

    open spec fn view(&self) -> ShaderView {
        self.shader@
    }
}

/// A buffer reference is translatable only when its channel selects one of
/// the four named buffers.
pub open spec fn input_supported(input: InputConfig) -> bool {
    match input {
        InputConfig::Buffer { channel } => 0 <= channel <= 3,
        InputConfig::Webcam { .. } => true,
    }
}

pub open spec fn pass_inputs_supported(pass: PassView) -> bool {
    forall|j: int| 0 <= j < pass.inputs.len() ==> input_supported(#[trigger] pass.inputs[j])
}

pub open spec fn all_inputs_supported(passes: Seq<PassView>) -> bool {
    forall|i: int| 0 <= i < passes.len() ==> pass_inputs_supported(#[trigger] passes[i])
}

/// Pass names must be pairwise distinct; a duplicate would silently merge
/// two stages of the target project.
pub open spec fn pass_names_unique(passes: Seq<PassView>) -> bool {
    forall|i: int, j: int|
        0 <= i < j < passes.len() ==> (#[trigger] passes[i]).name != (#[trigger] passes[j]).name
}

/// A pass samples the camera if any of its inputs is a webcam reference.
pub open spec fn pass_uses_webcam(pass: PassView) -> bool {
    exists|j: int| 0 <= j < pass.inputs.len() && (#[trigger] pass.inputs[j]) is Webcam
}

pub open spec fn uses_webcam(passes: Seq<PassView>) -> bool {
    exists|i: int| 0 <= i < passes.len() && pass_uses_webcam(#[trigger] passes[i])
}

/// A source document can be translated exactly when it has at least one
/// pass, no two passes share a name, and every buffer reference is in
/// range.
pub open spec fn source_ok(src: ShaderView) -> bool {
    &&& src.passes.len() > 0
    &&& pass_names_unique(src.passes)
    &&& all_inputs_supported(src.passes)
}

} // verus!
