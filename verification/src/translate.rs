//! The translation engine: maps a source project onto the target
//! render-stage / filter / input model and lists the shader file writes
//! that materialize it. The translation is pure; every field of the
//! result is pinned, so translating the same document twice gives the
//! same value.

use vstd::prelude::*;

use crate::names::fragment_path;
use crate::names::fragment_path_spec;
use crate::names::header_path;
use crate::names::header_path_spec;
use crate::names::input_name;
use crate::names::input_name_spec;
use crate::names::uniform_name;
use crate::names::uniform_name_spec;
use crate::names::vertex_path;
use crate::names::vertex_path_spec;
use crate::source::all_inputs_supported;
use crate::source::input_supported;
use crate::source::pass_inputs_supported;
use crate::source::pass_names_unique;
use crate::source::pass_uses_webcam;
use crate::source::source_ok;
use crate::source::uses_webcam;
use crate::source::InputConfig;
use crate::source::PassView;
use crate::source::RenderPassConfig;
use crate::source::ShaderConfig;
use crate::source::ShaderView;
use crate::target::ChannelBinding;
use crate::target::ChannelBindingV;
use crate::target::Filter;
use crate::target::FilterV;
use crate::target::InputEntry;
use crate::target::InputEntryV;
use crate::target::InputSource;
use crate::target::InputSourceV;
use crate::target::Precision;
use crate::target::ProjectDefaults;
use crate::target::ProjectDefaultsV;
use crate::target::ProjectSpec;
use crate::target::ProjectSpecV;
use crate::target::RenderStage;
use crate::target::RenderStageV;
use crate::target::ServerSettings;
use crate::target::ServerSettingsV;
use crate::target::ViewSettings;
use crate::target::ViewSettingsV;

verus! {

/// Why a source document was rejected: it is structurally unusable (no
/// passes, or two passes share a name), or it references an input kind
/// the target application has no binding for (a buffer channel outside
/// 0..=3).
#[derive(Clone, Copy, Debug, PartialEq, Eq, Structural)]
pub enum TranslateError {
    MalformedSource,
    UnsupportedInput,
}

/// One pending fragment-shader write: the stage whose directory receives
/// it, and the pass's raw shader text.
#[derive(Clone, Debug, PartialEq, Eq)]
pub struct ShaderWrite {
    pub stage: String,
    pub code: String,
}

/// Everything `translate` produces: the project folder name, the
/// assembled project, one filter per pass, the fragment-shader writes,
/// and the stages whose vertex shader is copied from the shared template
/// (both lists in reverse declaration order, as they are consumed).
#[derive(Clone, Debug, PartialEq, Eq)]
pub struct Translation {
    pub project_name: String,
    pub project: ProjectSpec,
    pub filters: Vec<Filter>,
    pub fragment_writes: Vec<ShaderWrite>,
    pub vertex_stages: Vec<String>,
}

/// Mathematical value of a `ShaderWrite`.
#[verifier::ext_equal]
pub struct ShaderWriteV {
    pub stage: Seq<char>,
    pub code: Seq<char>,
}

/// Mathematical value of a `Translation`.
#[verifier::ext_equal]
pub struct TranslationV {
    pub project_name: Seq<char>,
    pub project: ProjectSpecV,
    pub filters: Seq<FilterV>,
    pub fragment_writes: Seq<ShaderWriteV>,
    pub vertex_stages: Seq<Seq<char>>,
}

impl View for ShaderWrite {
    type V = ShaderWriteV;

    open spec fn view(&self) -> ShaderWriteV {
        ShaderWriteV { stage: self.stage@, code: self.code@ }
    }
}

impl DeepView for ShaderWrite {
    type V = ShaderWriteV;

    open spec fn deep_view(&self) -> ShaderWriteV {
        self.view()
    }
}

impl View for Translation {
    type V = TranslationV;

    open spec fn view(&self) -> TranslationV {
        TranslationV {
            project_name: self.project_name@,
            project: self.project@,
            filters: self.filters.deep_view(),
            fragment_writes: self.fragment_writes.deep_view(),
            vertex_stages: self.vertex_stages.deep_view(),
        }
    }
}

/// The channel bindings of the stage a pass becomes: slot `j` binds the
/// uniform "iChannel<j>" to the input name its reference resolves to.
pub open spec fn stage_bindings(p: PassView) -> Seq<ChannelBindingV> {
    Seq::new(
        p.inputs.len(),
        |j: int|
            ChannelBindingV {
                uniform: uniform_name_spec(j as nat),
                input: input_name_spec(p.inputs[j]),
            },
    )
}

/// The render stage a pass becomes: it keeps the pass's name, runs the
/// filter of the same name, and renders to a 32-bit float buffer.
pub open spec fn stage_of_pass(p: PassView) -> RenderStageV {
    RenderStageV {
        name: p.name,
        filter: p.name,
        inputs: stage_bindings(p),
        precision: Precision::F32,
    }
}

/// The filter a pass becomes: named after the pass, declaring its uniform
/// channel names, with one vertex shader file and the shared header
/// followed by the stage's own fragment file.
pub open spec fn filter_of_pass(p: PassView) -> FilterV {
    FilterV {
        name: p.name,
        inputs: Seq::new(p.inputs.len(), |j: int| uniform_name_spec(j as nat)),
        vertex_shader: seq![vertex_path_spec(p.name)],
        fragment_shader: seq![header_path_spec(), fragment_path_spec(p.name)],
    }
}

/// The single input-table entry a camera reference creates, however many
/// passes reference the camera.
pub open spec fn webcam_entry() -> InputEntryV {
    InputEntryV {
        name: "webcam"@,
        source: InputSourceV::Cam { path: "/dev/video0"@, width: 640, height: 480 },
    }
}

/// The target project's input table: one "webcam" entry if any pass
/// samples the camera, else empty.
pub open spec fn expected_inputs(passes: Seq<PassView>) -> Seq<InputEntryV> {
    if uses_webcam(passes) {
        seq![webcam_entry()]
    } else {
        Seq::<InputEntryV>::empty()
    }
}

/// The intermediate render chain: every pass but the last, in the
/// reverse of declaration order (the pass declared just before the final
/// one comes first).
pub open spec fn expected_chain(passes: Seq<PassView>) -> Seq<RenderStageV> {
    if passes.len() == 0 {
        Seq::<RenderStageV>::empty()
    } else {
        Seq::new((passes.len() - 1) as nat, |k: int| stage_of_pass(passes[passes.len() - 2 - k]))
    }
}

/// One filter per pass, in declaration order.
pub open spec fn expected_filters(passes: Seq<PassView>) -> Seq<FilterV> {
    Seq::new(passes.len(), |i: int| filter_of_pass(passes[i]))
}

/// The pending fragment-shader writes, one per pass, in reverse
/// declaration order.
pub open spec fn expected_writes(passes: Seq<PassView>) -> Seq<ShaderWriteV> {
    Seq::new(
        passes.len(),
        |k: int|
            ShaderWriteV {
                stage: passes[passes.len() - 1 - k].name,
                code: passes[passes.len() - 1 - k].code,
            },
    )
}

/// The stages that receive a copy of the vertex-shader template, one per
/// pass, in reverse declaration order.
pub open spec fn expected_vertex_stages(passes: Seq<PassView>) -> Seq<Seq<char>> {
    Seq::new(passes.len(), |k: int| passes[passes.len() - 1 - k].name)
}

/// The fixed window and timing defaults every generated project carries:
/// a 640x480 non-fullscreen window, dynamic resizing, vsync, no
/// screenshots, a 60 fps target, unlocked speed.
pub open spec fn default_view_settings() -> ViewSettingsV {
    ViewSettingsV {
        width: 640,
        height: 480,
        fullscreen: false,
        dynamic: true,
        vsync: true,
        screenshot: false,
        screenshot_path: "output/"@,
        screenshot_frame_count: -1i64,
        target_fps: 60,
        locked_speed: false,
    }
}

/// The fixed control-server defaults: disabled, localhost port 3000.
pub open spec fn default_server_settings() -> ServerSettingsV {
    ServerSettingsV { ip: "localhost"@, port: 3000, enable: false }
}

/// The standard defaults every generated project carries: tempo 89 and
/// the view and server settings above.
pub open spec fn standard_defaults() -> ProjectDefaultsV {
    ProjectDefaultsV { bpm: 89, view: default_view_settings(), server: default_server_settings() }
}

/// The project a translatable source assembles to, around the given
/// defaults.
pub open spec fn expected_project(src: ShaderView, defaults: ProjectDefaultsV) -> ProjectSpecV {
    ProjectSpecV {
        bpm: defaults.bpm,
        view: defaults.view,
        server: defaults.server,
        inputs: expected_inputs(src.passes),
        render_chain: expected_chain(src.passes),
        final_stage: stage_of_pass(src.passes.last()),
    }
}

/// The whole result a translatable source maps to around the given
/// defaults. `translate_with_defaults` returns exactly this value, so
/// translation is a function of the document and the defaults alone.
pub open spec fn expected_translation_with(
    src: ShaderView,
    defaults: ProjectDefaultsV,
) -> TranslationV {
    TranslationV {
        project_name: src.name,
        project: expected_project(src, defaults),
        filters: expected_filters(src.passes),
        fragment_writes: expected_writes(src.passes),
        vertex_stages: expected_vertex_stages(src.passes),
    }
}

/// The result of `translate`: translation around the standard defaults.
pub open spec fn expected_translation(src: ShaderView) -> TranslationV {
    expected_translation_with(src, standard_defaults())
}

fn input_is_supported(input: &InputConfig) -> (r: bool)
    ensures
        r == input_supported(*input),
{
    match input {
        InputConfig::Buffer { channel } => 0 <= *channel && *channel <= 3,
        InputConfig::Webcam { .. } => true,
    }
}

fn pass_all_supported(pass: &RenderPassConfig) -> (r: bool)
    ensures
        r == pass_inputs_supported(pass@),
{
    let mut j: usize = 0;
    while j < pass.inputs.len()
        invariant
            j <= pass.inputs.len(),
            forall|b: int| 0 <= b < j ==> input_supported(#[trigger] pass@.inputs[b]),
        decreases pass.inputs.len() - j,
    {
        if !input_is_supported(&pass.inputs[j]) {
            assert(!input_supported(pass@.inputs[j as int]));
            return false;
        }
        j += 1;
    }
    true
}

fn all_supported(passes: &Vec<RenderPassConfig>) -> (r: bool)
    ensures
        r == all_inputs_supported(passes.deep_view()),
{
    let ghost ps = passes.deep_view();
    let mut i: usize = 0;
    while i < passes.len()
        invariant
            i <= passes.len(),
            ps == passes.deep_view(),
            ps.len() == passes.len(),
            forall|a: int| 0 <= a < i ==> pass_inputs_supported(#[trigger] ps[a]),
        decreases passes.len() - i,
    {
        assert(passes[i as int]@ == ps[i as int]);
        if !pass_all_supported(&passes[i]) {
            return false;
        }
        i += 1;
    }
    true
}

fn names_all_distinct(passes: &Vec<RenderPassConfig>) -> (r: bool)
    ensures
        r == pass_names_unique(passes.deep_view()),
{
    let ghost ps = passes.deep_view();
    let n = passes.len();
    let mut i: usize = 0;
    while i < n
        invariant
            i <= n,
            n == passes.len(),
            ps == passes.deep_view(),
            ps.len() == n,
            forall|a: int, b: int|
                0 <= a < b < n && a < i ==> (#[trigger] ps[a]).name != (#[trigger] ps[b]).name,
        decreases n - i,
    {
        let mut j: usize = i + 1;
        while j < n
            invariant
                i < j <= n,
                n == passes.len(),
                ps == passes.deep_view(),
                ps.len() == n,
                forall|b: int| i < b < j ==> ps[i as int].name != (#[trigger] ps[b]).name,
            decreases n - j,
        {
            if passes[i].name == passes[j].name {
                assert(ps[i as int].name == ps[j as int].name);
                return false;
            }
            j += 1;
        }
        i += 1;
    }
    true
}

fn pass_has_webcam(pass: &RenderPassConfig) -> (r: bool)
    ensures
        r == pass_uses_webcam(pass@),
{
    let mut j: usize = 0;
    while j < pass.inputs.len()
        invariant
            j <= pass.inputs.len(),
            forall|b: int| 0 <= b < j ==> !((#[trigger] pass@.inputs[b]) is Webcam),
        decreases pass.inputs.len() - j,
    {
        let is_webcam = match &pass.inputs[j] {
            InputConfig::Webcam { .. } => true,
            InputConfig::Buffer { .. } => false,
        };
        if is_webcam {
            assert(pass@.inputs[j as int] is Webcam);
            return true;
        }
        j += 1;
    }
    false
}

fn detect_webcam(passes: &Vec<RenderPassConfig>) -> (r: bool)
    ensures
        r == uses_webcam(passes.deep_view()),
{
    let ghost ps = passes.deep_view();
    let mut i: usize = 0;
    while i < passes.len()
        invariant
            i <= passes.len(),
            ps == passes.deep_view(),
            ps.len() == passes.len(),
            forall|a: int| 0 <= a < i ==> !pass_uses_webcam(#[trigger] ps[a]),
        decreases passes.len() - i,
    {
        assert(passes[i as int]@ == ps[i as int]);
        if pass_has_webcam(&passes[i]) {
            return true;
        }
        i += 1;
    }
    false
}

fn build_bindings(pass: &RenderPassConfig) -> (v: Vec<ChannelBinding>)
    requires
        pass_inputs_supported(pass@),
    ensures
        v.deep_view() == stage_bindings(pass@),
{
    let mut v: Vec<ChannelBinding> = Vec::new();
    let mut j: usize = 0;
    while j < pass.inputs.len()
        invariant
            j <= pass.inputs.len(),
            v.len() == j,
            pass_inputs_supported(pass@),
            forall|m: int|
                0 <= m < j ==> (#[trigger] v@[m]).deep_view() == stage_bindings(pass@)[m],
        decreases pass.inputs.len() - j,
    {
        let uniform = uniform_name(j);
        assert(input_supported(pass@.inputs[j as int]));
        let input = match input_name(&pass.inputs[j]) {
            Some(name) => name,
            None => unreached(),
        };
        let binding = ChannelBinding { uniform, input };
        let ghost pre = v@;
        proof {
            assert(binding@ == stage_bindings(pass@)[j as int]);
        }
        v.push(binding);
        proof {
            assert(v@ == pre.push(binding));
            assert forall|m: int| 0 <= m < j + 1 implies (#[trigger] v@[m]).deep_view()
                == stage_bindings(pass@)[m] by {
                if m < j {
                    assert(v@[m] == pre[m]);
                } else {
                    assert(v@[m] == binding);
                }
            }
        }
        j += 1;
    }
    proof {
        assert(v.deep_view() =~= stage_bindings(pass@));
    }
    v
}

/// Builds the render stage for one pass.
fn build_stage(pass: &RenderPassConfig) -> (s: RenderStage)
    requires
        pass_inputs_supported(pass@),
    ensures
        s@ == stage_of_pass(pass@),
{
    let s = RenderStage {
        name: pass.name.clone(),
        filter: pass.name.clone(),
        inputs: build_bindings(pass),
        precision: Precision::F32,
    };
    proof {
        assert(s@ =~~= stage_of_pass(pass@));
    }
    s
}

/// Builds the filter definition for one pass.
fn build_filter(pass: &RenderPassConfig) -> (f: Filter)
    ensures
        f@ == filter_of_pass(pass@),
{
    let mut uniform_names: Vec<String> = Vec::new();
    let mut j: usize = 0;
    while j < pass.inputs.len()
        invariant
            j <= pass.inputs.len(),
            uniform_names.len() == j,
            forall|m: int|
                0 <= m < j ==> (#[trigger] uniform_names@[m]).deep_view() == uniform_name_spec(
                    m as nat,
                ),
        decreases pass.inputs.len() - j,
    {
        let name = uniform_name(j);
        let ghost pre = uniform_names@;
        uniform_names.push(name);
        proof {
            assert(uniform_names@ == pre.push(name));
            assert forall|m: int| 0 <= m < j + 1 implies (#[trigger] uniform_names@[m]).deep_view()
                == uniform_name_spec(m as nat) by {
                if m < j {
                    assert(uniform_names@[m] == pre[m]);
                } else {
                    assert(uniform_names@[m] == name);
                }
            }
        }
        j += 1;
    }
    let mut vertex_shader: Vec<String> = Vec::new();
    vertex_shader.push(vertex_path(pass.name.as_str()));
    let mut fragment_shader: Vec<String> = Vec::new();
    fragment_shader.push(header_path());
    fragment_shader.push(fragment_path(pass.name.as_str()));
    let f = Filter { name: pass.name.clone(), inputs: uniform_names, vertex_shader, fragment_shader };
    proof {
        assert(f@.inputs =~= filter_of_pass(pass@).inputs);
        assert(f@.vertex_shader =~= filter_of_pass(pass@).vertex_shader);
        assert(f@.fragment_shader =~= filter_of_pass(pass@).fragment_shader);
        assert(f@ =~~= filter_of_pass(pass@));
    }
    f
}

/// Translates a parsed source project into the target model, assembling
/// the project around the given defaults.
///
/// Succeeds exactly on documents with at least one pass, pairwise
/// distinct pass names, and every buffer channel in 0..=3; the result is
/// then the one value `expected_translation_with` describes. A
/// structurally unusable document is rejected as `MalformedSource`; an
/// out-of-range buffer channel in an otherwise sound document as
/// `UnsupportedInput`. Nothing is written anywhere: rejection happens
/// before any file write can be issued.
pub fn translate_with_defaults(config: &ShaderConfig, defaults: ProjectDefaults) -> (r: Result<
    Translation,
    TranslateError,
>)
    ensures
        r is Ok <==> source_ok(config@),
        r matches Ok(t) ==> t@ == expected_translation_with(config@, defaults@),
        r matches Err(e) ==> ((e == TranslateError::MalformedSource) <==> (config@.passes.len()
            == 0 || !pass_names_unique(config@.passes))),
        r matches Err(e) ==> ((e == TranslateError::UnsupportedInput) <==> (config@.passes.len()
            > 0 && pass_names_unique(config@.passes) && !all_inputs_supported(config@.passes))),
{
    let ghost src = config@;
    let passes = &config.renderpass;
    let n = passes.len();
    assert(src.passes.len() == n);
    if n == 0 {
        return Err(TranslateError::MalformedSource);
    }
    if !names_all_distinct(passes) {
        return Err(TranslateError::MalformedSource);
    }
    if !all_supported(passes) {
        return Err(TranslateError::UnsupportedInput);
    }

    assert(src.passes[n - 1] == passes[n - 1 as int]@);
    let final_stage = build_stage(&passes[n - 1]);

    let mut render_chain: Vec<RenderStage> = Vec::new();
    let mut k: usize = 0;
    while k < n - 1
        invariant
            k <= n - 1,
            n == passes.len(),
            n >= 1,
            src == config@,
            src.passes == passes.deep_view(),
            all_inputs_supported(src.passes),
            render_chain.len() == k,
            forall|m: int|
                0 <= m < k ==> (#[trigger] render_chain@[m]).deep_view() == expected_chain(
                    src.passes,
                )[m],
        decreases n - 1 - k,
    {
        let idx = n - 2 - k;
        assert(src.passes[idx as int] == passes[idx as int]@);
        let stage = build_stage(&passes[idx]);
        let ghost pre = render_chain@;
        proof {
            assert(stage@ == expected_chain(src.passes)[k as int]);
        }
        render_chain.push(stage);
        proof {
            assert(render_chain@ == pre.push(stage));
            assert forall|m: int| 0 <= m < k + 1 implies (#[trigger] render_chain@[m]).deep_view()
                == expected_chain(src.passes)[m] by {
                if m < k {
                    assert(render_chain@[m] == pre[m]);
                } else {
                    assert(render_chain@[m] == stage);
                }
            }
        }
        k += 1;
    }

    let mut filters: Vec<Filter> = Vec::new();
    let mut i: usize = 0;
    while i < n
        invariant
            i <= n,
            n == passes.len(),
            src == config@,
            src.passes == passes.deep_view(),
            filters.len() == i,
            forall|m: int|
                0 <= m < i ==> (#[trigger] filters@[m]).deep_view() == expected_filters(
                    src.passes,
                )[m],
        decreases n - i,
    {
        assert(src.passes[i as int] == passes[i as int]@);
        let filter = build_filter(&passes[i]);
        let ghost pre = filters@;
        proof {
            assert(filter@ == expected_filters(src.passes)[i as int]);
        }
        filters.push(filter);
        proof {
            assert(filters@ == pre.push(filter));
            assert forall|m: int| 0 <= m < i + 1 implies (#[trigger] filters@[m]).deep_view()
                == expected_filters(src.passes)[m] by {
                if m < i {
                    assert(filters@[m] == pre[m]);
                } else {
                    assert(filters@[m] == filter);
                }
            }
        }
        i += 1;
    }

    let mut fragment_writes: Vec<ShaderWrite> = Vec::new();
    let mut vertex_stages: Vec<String> = Vec::new();
    let mut w: usize = 0;
    while w < n
        invariant
            w <= n,
            n == passes.len(),
            n >= 1,
            src == config@,
            src.passes == passes.deep_view(),
            fragment_writes.len() == w,
            vertex_stages.len() == w,
            forall|m: int|
                0 <= m < w ==> (#[trigger] fragment_writes@[m]).deep_view() == expected_writes(
                    src.passes,
                )[m],
            forall|m: int|
                0 <= m < w ==> (#[trigger] vertex_stages@[m]).deep_view()
                    == expected_vertex_stages(src.passes)[m],
        decreases n - w,
    {
        let idx = n - 1 - w;
        assert(src.passes[idx as int] == passes[idx as int]@);
        let write = ShaderWrite { stage: passes[idx].name.clone(), code: passes[idx].code.clone() };
        let vertex_stage = passes[idx].name.clone();
        let ghost pre_writes = fragment_writes@;
        let ghost pre_stages = vertex_stages@;
        proof {
            assert(write@ == expected_writes(src.passes)[w as int]);
            assert(vertex_stage@ == expected_vertex_stages(src.passes)[w as int]);
        }
        fragment_writes.push(write);
        vertex_stages.push(vertex_stage);
        proof {
            assert(fragment_writes@ == pre_writes.push(write));
            assert(vertex_stages@ == pre_stages.push(vertex_stage));
            assert forall|m: int| 0 <= m < w + 1 implies (#[trigger] fragment_writes@[m]).deep_view() == expected_writes(src.passes)[m] by {
                if m < w {
                    assert(fragment_writes@[m] == pre_writes[m]);
                } else {
                    assert(fragment_writes@[m] == write);
                }
            }
            assert forall|m: int| 0 <= m < w + 1 implies (#[trigger] vertex_stages@[m]).deep_view() == expected_vertex_stages(src.passes)[m] by {
                if m < w {
                    assert(vertex_stages@[m] == pre_stages[m]);
                } else {
                    assert(vertex_stages@[m] == vertex_stage);
                }
            }
        }
        w += 1;
    }

    let mut inputs: Vec<InputEntry> = Vec::new();
    if detect_webcam(passes) {
        inputs.push(
            InputEntry {
                name: String::from_str("webcam"),
                source: InputSource::Cam {
                    path: String::from_str("/dev/video0"),
                    width: 640,
                    height: 480,
                },
            },
        );
    }

    let t = Translation {
        project_name: config.info.name.clone(),
        project: ProjectSpec {
            bpm: defaults.bpm,
            view: defaults.view,
            server: defaults.server,
            inputs,
            render_chain,
            final_stage,
        },
        filters,
        fragment_writes,
        vertex_stages,
    };
    proof {
        assert(t@.project.inputs =~= expected_inputs(src.passes));
        assert(t@.project.render_chain =~= expected_chain(src.passes));
        assert(t@.filters =~= expected_filters(src.passes));
        assert(t@.fragment_writes =~= expected_writes(src.passes));
        assert(t@.vertex_stages =~= expected_vertex_stages(src.passes));
        assert(t@ =~~= expected_translation_with(src, defaults@));
    }
    Ok(t)
}

impl ProjectDefaults {
    /// The standard defaults of a generated project.
    pub fn standard() -> (d: ProjectDefaults)
        ensures
            d@ == standard_defaults(),
    {
        let d = ProjectDefaults {
            bpm: 89,
            view: ViewSettings {
                width: 640,
                height: 480,
                fullscreen: false,
                dynamic: true,
                vsync: true,
                screenshot: false,
                screenshot_path: String::from_str("output/"),
                screenshot_frame_count: -1,
                target_fps: 60,
                locked_speed: false,
            },
            server: ServerSettings {
                ip: String::from_str("localhost"),
                port: 3000,
                enable: false,
            },
        };
        proof {
            assert(d@ =~~= standard_defaults());
        }
        d
    }
}

/// Translates a parsed source project around the standard defaults; the
/// success and failure conditions are those of `translate_with_defaults`.
pub fn translate(config: &ShaderConfig) -> (r: Result<Translation, TranslateError>)
    ensures
        r is Ok <==> source_ok(config@),
        r matches Ok(t) ==> t@ == expected_translation(config@),
        r matches Err(e) ==> ((e == TranslateError::MalformedSource) <==> (config@.passes.len()
            == 0 || !pass_names_unique(config@.passes))),
        r matches Err(e) ==> ((e == TranslateError::UnsupportedInput) <==> (config@.passes.len()
            > 0 && pass_names_unique(config@.passes) && !all_inputs_supported(config@.passes))),
{
    translate_with_defaults(config, ProjectDefaults::standard())
}

} // verus!
