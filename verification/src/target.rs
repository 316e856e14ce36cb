//! The target side of the translation: the render-stage / filter / input
//! model of the rendering application, held as plain values so that the
//! translation can be stated and checked field by field. The application's
//! own configuration types carry floating-point fields (tempo, target
//! frame rate); here those are whole numbers, and the surrounding program
//! widens them when it serializes a project.

use vstd::prelude::*;

verus! {

/// Buffer precision of a render stage's output. Translated stages always
/// use 32-bit float buffers.
#[derive(Clone, Copy, Debug, PartialEq, Eq, Structural)]
pub enum Precision {
    U8,
    F16,
    F32,
}

/// A named input source of the target project. The only kind the source
/// model can ask for is a camera feed.
#[derive(Clone, Debug, PartialEq, Eq)]
pub enum InputSource {
    Cam { path: String, width: u32, height: u32 },
}

/// One entry of the target project's input table: an input name and the
/// source bound to it.
#[derive(Clone, Debug, PartialEq, Eq)]
pub struct InputEntry {
    pub name: String,
    pub source: InputSource,
}

/// One channel binding of a render stage: the uniform the shader samples
/// through, and the name of the input bound to it.
#[derive(Clone, Debug, PartialEq, Eq)]
pub struct ChannelBinding {
    pub uniform: String,
    pub input: String,
}

/// One step of the target render chain: it runs the filter named
/// `filter`, with each uniform channel bound to a named input.
#[derive(Clone, Debug, PartialEq, Eq)]
pub struct RenderStage {
    pub name: String,
    pub filter: String,
    pub inputs: Vec<ChannelBinding>,
    pub precision: Precision,
}

/// A filter definition: the shader program one stage runs, its declared
/// input names (the uniform channel names), and the shader files that
/// make it up. `fragment_shader` always lists the shared header first,
/// then the stage's own fragment file.
#[derive(Clone, Debug, PartialEq, Eq)]
pub struct Filter {
    pub name: String,
    pub inputs: Vec<String>,
    pub vertex_shader: Vec<String>,
    pub fragment_shader: Vec<String>,
}

/// Window and timing settings of a generated project; every translation
/// emits the same fixed defaults.
#[derive(Clone, Debug, PartialEq, Eq)]
pub struct ViewSettings {
    pub width: u32,
    pub height: u32,
    pub fullscreen: bool,
    pub dynamic: bool,
    pub vsync: bool,
    pub screenshot: bool,
    pub screenshot_path: String,
    pub screenshot_frame_count: i64,
    pub target_fps: u32,
    pub locked_speed: bool,
}

/// Control-server settings of a generated project; fixed defaults.
#[derive(Clone, Debug, PartialEq, Eq)]
pub struct ServerSettings {
    pub ip: String,
    pub port: u16,
    pub enable: bool,
}

/// The default configuration a project is assembled around: tempo,
/// window/timing settings and control-server settings. Passed explicitly
/// into translation so that nothing about the assembled project is hidden
/// state.
#[derive(Clone, Debug, PartialEq, Eq)]
pub struct ProjectDefaults {
    pub bpm: u32,
    pub view: ViewSettings,
    pub server: ServerSettings,
}

/// A fully-assembled target project: the defaults it was assembled
/// around, the named inputs, the intermediate render stages, and the
/// final/output stage.
#[derive(Clone, Debug, PartialEq, Eq)]
pub struct ProjectSpec {
    pub bpm: u32,
    pub view: ViewSettings,
    pub server: ServerSettings,
    pub inputs: Vec<InputEntry>,
    pub render_chain: Vec<RenderStage>,
    pub final_stage: RenderStage,
}

/// Mathematical value of an `InputSource`.
#[verifier::ext_equal]
pub enum InputSourceV {
    Cam { path: Seq<char>, width: u32, height: u32 },
}

/// Mathematical value of an `InputEntry`.
#[verifier::ext_equal]
pub struct InputEntryV {
    pub name: Seq<char>,
    pub source: InputSourceV,
}

/// Mathematical value of a `ChannelBinding`.
#[verifier::ext_equal]
pub struct ChannelBindingV {
    pub uniform: Seq<char>,
    pub input: Seq<char>,
}

/// Mathematical value of a `RenderStage`.
#[verifier::ext_equal]
pub struct RenderStageV {
    pub name: Seq<char>,
    pub filter: Seq<char>,
    pub inputs: Seq<ChannelBindingV>,
    pub precision: Precision,
}

/// Mathematical value of a `Filter`.
#[verifier::ext_equal]
pub struct FilterV {
    pub name: Seq<char>,
    pub inputs: Seq<Seq<char>>,
    pub vertex_shader: Seq<Seq<char>>,
    pub fragment_shader: Seq<Seq<char>>,
}

/// Mathematical value of a `ViewSettings`.
#[verifier::ext_equal]
pub struct ViewSettingsV {
    pub width: u32,
    pub height: u32,
    pub fullscreen: bool,
    pub dynamic: bool,
    pub vsync: bool,
    pub screenshot: bool,
    pub screenshot_path: Seq<char>,
    pub screenshot_frame_count: i64,
    pub target_fps: u32,
    pub locked_speed: bool,
}

/// Mathematical value of a `ServerSettings`.
#[verifier::ext_equal]
pub struct ServerSettingsV {
    pub ip: Seq<char>,
    pub port: u16,
    pub enable: bool,
}

/// Mathematical value of a `ProjectDefaults`.
#[verifier::ext_equal]
pub struct ProjectDefaultsV {
    pub bpm: u32,
    pub view: ViewSettingsV,
    pub server: ServerSettingsV,
}

/// Mathematical value of a `ProjectSpec`.
#[verifier::ext_equal]
pub struct ProjectSpecV {
    pub bpm: u32,
    pub view: ViewSettingsV,
    pub server: ServerSettingsV,
    pub inputs: Seq<InputEntryV>,
    pub render_chain: Seq<RenderStageV>,
    pub final_stage: RenderStageV,
}

impl View for InputSource {
    type V = InputSourceV;

    open spec fn view(&self) -> InputSourceV {
        match self {
            InputSource::Cam { path, width, height } => InputSourceV::Cam {
                path: path@,
                width: *width,
                height: *height,
            },
        }
    }
}

impl View for InputEntry {
    type V = InputEntryV;

    open spec fn view(&self) -> InputEntryV {
        InputEntryV { name: self.name@, source: self.source@ }
    }
}

impl DeepView for InputEntry {
    type V = InputEntryV;

    open spec fn deep_view(&self) -> InputEntryV {
        self.view()
    }
}

impl View for ChannelBinding {
    type V = ChannelBindingV;

    open spec fn view(&self) -> ChannelBindingV {
        ChannelBindingV { uniform: self.uniform@, input: self.input@ }
    }
}

impl DeepView for ChannelBinding {
    type V = ChannelBindingV;

    open spec fn deep_view(&self) -> ChannelBindingV {
        self.view()
    }
}

impl View for RenderStage {
    type V = RenderStageV;

    open spec fn view(&self) -> RenderStageV {
        RenderStageV {
            name: self.name@,
            filter: self.filter@,
            inputs: self.inputs.deep_view(),
            precision: self.precision,
        }
    }
}

impl DeepView for RenderStage {
    type V = RenderStageV;

    open spec fn deep_view(&self) -> RenderStageV {
        self.view()
    }
}

impl View for Filter {
    type V = FilterV;

    open spec fn view(&self) -> FilterV {
        FilterV {
            name: self.name@,
            inputs: self.inputs.deep_view(),
            vertex_shader: self.vertex_shader.deep_view(),
            fragment_shader: self.fragment_shader.deep_view(),
        }
    }
}

impl DeepView for Filter {
    type V = FilterV;

    open spec fn deep_view(&self) -> FilterV {
        self.view()
    }
}

impl View for ViewSettings {
    type V = ViewSettingsV;

    open spec fn view(&self) -> ViewSettingsV {
        ViewSettingsV {
            width: self.width,
            height: self.height,
            fullscreen: self.fullscreen,
            dynamic: self.dynamic,
            vsync: self.vsync,
            screenshot: self.screenshot,
            screenshot_path: self.screenshot_path@,
            screenshot_frame_count: self.screenshot_frame_count,
            target_fps: self.target_fps,
            locked_speed: self.locked_speed,
        }
    }
}

impl View for ServerSettings {
    type V = ServerSettingsV;

    open spec fn view(&self) -> ServerSettingsV {
        ServerSettingsV { ip: self.ip@, port: self.port, enable: self.enable }
    }
}

impl View for ProjectDefaults {
    type V = ProjectDefaultsV;

    open spec fn view(&self) -> ProjectDefaultsV {
        ProjectDefaultsV { bpm: self.bpm, view: self.view@, server: self.server@ }
    }
}

impl View for ProjectSpec {
    type V = ProjectSpecV;

    open spec fn view(&self) -> ProjectSpecV {
        ProjectSpecV {
            bpm: self.bpm,
            view: self.view@,
            server: self.server@,
            inputs: self.inputs.deep_view(),
            render_chain: self.render_chain.deep_view(),
            final_stage: self.final_stage@,
        }
    }
}

} // verus!
