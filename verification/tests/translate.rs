use wvr_shadertoy::source::{InputConfig, RenderPassConfig, ShaderConfig, ShaderInfo};
use wvr_shadertoy::target::{InputSource, Precision, ProjectDefaults};
use wvr_shadertoy::translate::{translate, translate_with_defaults, TranslateError, Translation};

fn pass(name: &str, code: &str, inputs: Vec<InputConfig>) -> RenderPassConfig {
    RenderPassConfig { name: name.to_owned(), code: code.to_owned(), inputs }
}

fn config(name: &str, passes: Vec<RenderPassConfig>) -> ShaderConfig {
    ShaderConfig { info: ShaderInfo { name: name.to_owned() }, renderpass: passes }
}

fn translated(c: &ShaderConfig) -> Translation {
    translate(c).expect("translation should succeed")
}

#[test]
fn stage_count_and_names() {
    let c = config(
        "demo",
        vec![
            pass("A", "a", vec![]),
            pass("B", "b", vec![]),
            pass("C", "c", vec![]),
            pass("Image", "img", vec![]),
        ],
    );
    let t = translated(&c);
    assert_eq!(t.project.render_chain.len(), 3);
    assert_eq!(t.project.final_stage.name, "Image");
    let mut names: Vec<String> =
        t.project.render_chain.iter().map(|s| s.name.clone()).collect();
    names.push(t.project.final_stage.name.clone());
    names.sort();
    assert_eq!(names, vec!["A", "B", "C", "Image"]);
}

#[test]
fn chain_order_is_reversed() {
    let c = config(
        "demo",
        vec![
            pass("A", "a", vec![]),
            pass("B", "b", vec![]),
            pass("C", "c", vec![]),
            pass("Image", "img", vec![]),
        ],
    );
    let t = translated(&c);
    let order: Vec<&str> = t.project.render_chain.iter().map(|s| s.name.as_str()).collect();
    assert_eq!(order, vec!["C", "B", "A"]);
    assert_eq!(t.project.final_stage.name, "Image");
}

#[test]
fn buffer_slot_two_binds_buffer_c() {
    let c = config(
        "demo",
        vec![
            pass("A", "a", vec![InputConfig::Buffer { channel: 2 }]),
            pass("Image", "img", vec![]),
        ],
    );
    let t = translated(&c);
    assert_eq!(t.project.render_chain[0].inputs[0].input, "Buffer C");
}

#[test]
fn buffer_slots_bind_named_buffers() {
    let c = config(
        "demo",
        vec![pass(
            "Image",
            "img",
            vec![
                InputConfig::Buffer { channel: 0 },
                InputConfig::Buffer { channel: 1 },
                InputConfig::Buffer { channel: 3 },
            ],
        )],
    );
    let t = translated(&c);
    let bound: Vec<&str> =
        t.project.final_stage.inputs.iter().map(|b| b.input.as_str()).collect();
    assert_eq!(bound, vec!["Buffer A", "Buffer B", "Buffer D"]);
}

#[test]
fn webcam_deduplicated_across_passes() {
    let c = config(
        "demo",
        vec![
            pass("A", "a", vec![InputConfig::Webcam { channel: 0 }]),
            pass("Image", "img", vec![InputConfig::Webcam { channel: 1 }]),
        ],
    );
    let t = translated(&c);
    assert_eq!(t.project.inputs.len(), 1);
    assert_eq!(t.project.inputs[0].name, "webcam");
    let InputSource::Cam { path, width, height } = &t.project.inputs[0].source;
    assert_eq!(path, "/dev/video0");
    assert_eq!(*width, 640);
    assert_eq!(*height, 480);
}

#[test]
fn no_webcam_means_no_inputs() {
    let c = config("demo", vec![pass("Image", "img", vec![])]);
    let t = translated(&c);
    assert!(t.project.inputs.is_empty());
}

#[test]
fn uniform_name_of_slot_three() {
    let c = config(
        "demo",
        vec![pass(
            "Image",
            "img",
            vec![
                InputConfig::Buffer { channel: 0 },
                InputConfig::Buffer { channel: 1 },
                InputConfig::Buffer { channel: 2 },
                InputConfig::Buffer { channel: 3 },
            ],
        )],
    );
    let t = translated(&c);
    let uniforms: Vec<&str> =
        t.project.final_stage.inputs.iter().map(|b| b.uniform.as_str()).collect();
    assert_eq!(uniforms, vec!["iChannel0", "iChannel1", "iChannel2", "iChannel3"]);
}

#[test]
fn uniform_names_go_past_ten_slots() {
    let inputs: Vec<InputConfig> =
        (0..12).map(|_| InputConfig::Webcam { channel: 0 }).collect();
    let c = config("demo", vec![pass("Image", "img", inputs)]);
    let t = translated(&c);
    assert_eq!(t.project.final_stage.inputs[9].uniform, "iChannel9");
    assert_eq!(t.project.final_stage.inputs[10].uniform, "iChannel10");
    assert_eq!(t.project.final_stage.inputs[11].uniform, "iChannel11");
}

#[test]
fn fragment_shader_lists_header_first() {
    let c = config(
        "demo",
        vec![pass("A", "a", vec![]), pass("Image", "img", vec![])],
    );
    let t = translated(&c);
    for f in &t.filters {
        assert_eq!(f.fragment_shader.len(), 2);
        assert_eq!(f.fragment_shader[0], "render_chain/utils/header.glsl");
    }
    assert_eq!(t.filters[0].fragment_shader[1], "render_chain/A/fragment/main.glsl");
    assert_eq!(t.filters[0].vertex_shader, vec!["render_chain/A/vertex/main.glsl"]);
}

#[test]
fn filters_mirror_passes() {
    let c = config(
        "demo",
        vec![
            pass("A", "a", vec![InputConfig::Buffer { channel: 0 }]),
            pass("Image", "img", vec![]),
        ],
    );
    let t = translated(&c);
    assert_eq!(t.filters.len(), 2);
    assert_eq!(t.filters[0].name, "A");
    assert_eq!(t.filters[0].inputs, vec!["iChannel0"]);
    assert_eq!(t.filters[1].name, "Image");
    assert!(t.filters[1].inputs.is_empty());
}

#[test]
fn translation_is_deterministic() {
    let c = config(
        "demo",
        vec![
            pass("A", "a", vec![InputConfig::Buffer { channel: 1 }]),
            pass("B", "b", vec![InputConfig::Webcam { channel: 0 }]),
            pass("Image", "img", vec![InputConfig::Buffer { channel: 0 }]),
        ],
    );
    let first = translated(&c);
    let second = translated(&c);
    assert_eq!(first, second);
}

#[test]
fn buffer_slot_four_is_unsupported() {
    let c = config(
        "demo",
        vec![
            pass("A", "a", vec![InputConfig::Buffer { channel: 4 }]),
            pass("Image", "img", vec![]),
        ],
    );
    assert_eq!(translate(&c), Err(TranslateError::UnsupportedInput));
}

#[test]
fn negative_buffer_slot_is_unsupported() {
    let c = config(
        "demo",
        vec![pass("Image", "img", vec![InputConfig::Buffer { channel: -1 }])],
    );
    assert_eq!(translate(&c), Err(TranslateError::UnsupportedInput));
}

#[test]
fn empty_pass_list_is_malformed() {
    let c = config("demo", vec![]);
    assert_eq!(translate(&c), Err(TranslateError::MalformedSource));
}

#[test]
fn duplicate_pass_names_are_malformed() {
    let c = config(
        "demo",
        vec![pass("A", "a", vec![]), pass("A", "other", vec![]), pass("Image", "i", vec![])],
    );
    assert_eq!(translate(&c), Err(TranslateError::MalformedSource));
}

#[test]
fn shader_writes_carry_code_in_reverse_order() {
    let c = config(
        "demo",
        vec![
            pass("A", "code of a", vec![]),
            pass("B", "code of b", vec![]),
            pass("Image", "code of image", vec![]),
        ],
    );
    let t = translated(&c);
    let order: Vec<(&str, &str)> =
        t.fragment_writes.iter().map(|w| (w.stage.as_str(), w.code.as_str())).collect();
    assert_eq!(
        order,
        vec![("Image", "code of image"), ("B", "code of b"), ("A", "code of a")]
    );
    let stages: Vec<&str> = t.vertex_stages.iter().map(|s| s.as_str()).collect();
    assert_eq!(stages, vec!["Image", "B", "A"]);
}

#[test]
fn project_defaults_are_fixed() {
    let c = config("my project", vec![pass("Image", "img", vec![])]);
    let t = translated(&c);
    assert_eq!(t.project_name, "my project");
    assert_eq!(t.project.bpm, 89);
    assert_eq!(t.project.view.width, 640);
    assert_eq!(t.project.view.height, 480);
    assert!(!t.project.view.fullscreen);
    assert!(t.project.view.dynamic);
    assert!(t.project.view.vsync);
    assert!(!t.project.view.screenshot);
    assert_eq!(t.project.view.screenshot_path, "output/");
    assert_eq!(t.project.view.screenshot_frame_count, -1);
    assert_eq!(t.project.view.target_fps, 60);
    assert!(!t.project.view.locked_speed);
    assert_eq!(t.project.server.ip, "localhost");
    assert_eq!(t.project.server.port, 3000);
    assert!(!t.project.server.enable);
    assert_eq!(t.project.final_stage.precision, Precision::F32);
    assert_eq!(t.project.final_stage.filter, "Image");
}

#[test]
fn defaults_can_be_overridden() {
    let c = config("demo", vec![pass("Image", "img", vec![])]);
    let mut defaults = ProjectDefaults::standard();
    defaults.bpm = 120;
    defaults.view.width = 1920;
    defaults.view.height = 1080;
    defaults.server.port = 4000;
    let t = translate_with_defaults(&c, defaults).expect("translation should succeed");
    assert_eq!(t.project.bpm, 120);
    assert_eq!(t.project.view.width, 1920);
    assert_eq!(t.project.view.height, 1080);
    assert_eq!(t.project.server.port, 4000);
    // The standard path keeps the documented defaults.
    let std_t = translated(&c);
    assert_eq!(std_t.project.bpm, 89);
}

#[test]
fn single_pass_project_has_empty_chain() {
    let c = config("demo", vec![pass("Image", "img", vec![])]);
    let t = translated(&c);
    assert!(t.project.render_chain.is_empty());
    assert_eq!(t.project.final_stage.name, "Image");
    assert_eq!(t.filters.len(), 1);
    assert_eq!(t.fragment_writes.len(), 1);
}
