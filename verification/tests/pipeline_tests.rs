use sdf2d_pipeline::scene_parsing::{
    ParsedScene2D, ParsedShape2DType, SceneError, SceneParser,
};
use sdf2d_pipeline::slang_utils::{
    compile_shaders, slang_compiler_name, CompileError, ShaderProfile, ShaderStage, ShaderTarget,
    SlangCompile,
};

fn full_job(source: &str, dest: &str, stage: ShaderStage, target: ShaderTarget) -> Vec<String> {
    SlangCompile::new()
        .with_source(source)
        .with_stage(stage)
        .to_destinatino(dest)
        .to_target(target)
        .compile()
        .unwrap()
}

#[test]
fn compile_without_source_reports_missing_source() {
    let job = SlangCompile::new().compile();
    assert_eq!(job, Err(CompileError::MissingSourcePath));
}

#[test]
fn compile_without_destination_reports_missing_destination() {
    let job = SlangCompile::new()
        .with_source("a.slang")
        .with_stage(ShaderStage::Vertex)
        .to_target(ShaderTarget::Glsl)
        .compile();
    assert_eq!(job, Err(CompileError::MissingDestPath));
}

#[test]
fn compile_without_stage_reports_missing_stage() {
    let job = SlangCompile::new().with_source("a.slang").to_destinatino("b.spv").compile();
    assert_eq!(job, Err(CompileError::MissingShaderStage));
}

#[test]
fn missing_source_is_reported_before_missing_destination() {
    let job = SlangCompile::new().with_stage(ShaderStage::Vertex).compile();
    assert_eq!(job, Err(CompileError::MissingSourcePath));
}

#[test]
fn full_job_arguments_stand_in_fixed_order() {
    let args = full_job("src.slang", "out.frag.spv", ShaderStage::Fragment, ShaderTarget::SpirV);
    let expected: Vec<String> = [
        "src.slang",
        "-profile",
        "glsl_450",
        "-target",
        "spirv",
        "-o",
        "out.frag.spv",
        "-entry",
        "fragment",
        "-I",
        "assets/shaders/math_utils",
        "-I",
        "assets/shaders/sdf2d",
        "-I",
        "assets/shaders/.core/math_utils",
        "-I",
        "assets/shaders/.core/sdf2d",
        "-fvk-use-entrypoint-name",
    ]
    .iter()
    .map(|s| s.to_string())
    .collect();
    assert_eq!(args, expected);
}

#[test]
fn target_and_profile_default_when_unset() {
    let args = SlangCompile::new()
        .with_source("src.slang")
        .with_stage(ShaderStage::Vertex)
        .to_destinatino("out.vert.spv")
        .compile()
        .unwrap();
    assert_eq!(args[2], "glsl_450");
    assert_eq!(args[4], "spirv");
    assert_eq!(args[8], "vertex");
}

#[test]
fn explicit_profile_is_passed_through() {
    let args = SlangCompile::new()
        .with_source("src.slang")
        .with_stage(ShaderStage::Fragment)
        .to_destinatino("out.frag")
        .to_target(ShaderTarget::Glsl)
        .with_profile(ShaderProfile::Glsl450)
        .compile()
        .unwrap();
    assert_eq!(args[1], "-profile");
    assert_eq!(args[2], "glsl_450");
    assert_eq!(args[4], "glsl");
}

#[test]
fn compiler_name_is_slangc() {
    assert_eq!(slang_compiler_name(), "slangc");
}

#[test]
fn orchestrator_always_plans_exactly_four_jobs() {
    let jobs = compile_shaders("assets/shaders/.generated/main.slang", Some("main"));
    assert_eq!(jobs.len(), 4);
    let dests: Vec<&str> = jobs.iter().map(|j| j[6].as_str()).collect();
    assert_eq!(
        dests,
        vec![
            "assets/shaders/.compiled/main.frag.spv",
            "assets/shaders/.compiled/main.vert.spv",
            "assets/shaders/.compiled/main.frag",
            "assets/shaders/.compiled/main.vert",
        ]
    );
    let stages: Vec<&str> = jobs.iter().map(|j| j[8].as_str()).collect();
    assert_eq!(stages, vec!["fragment", "vertex", "fragment", "vertex"]);
    let targets: Vec<&str> = jobs.iter().map(|j| j[4].as_str()).collect();
    assert_eq!(targets, vec!["spirv", "spirv", "glsl", "glsl"]);
    for job in &jobs {
        assert_eq!(job[0], "assets/shaders/.generated/main.slang");
    }
}

#[test]
fn orchestrator_derives_basename_from_source_file() {
    let jobs = compile_shaders("x/fig.slang", None);
    assert_eq!(jobs[0][6], "assets/shaders/.compiled/fig.frag.spv");
}

#[test]
fn orchestrator_strips_only_the_extension() {
    let jobs = compile_shaders("a/b/scene.2d.json", None);
    assert_eq!(jobs[0][6], "assets/shaders/.compiled/scene.2d.frag.spv");
    assert_eq!(jobs[3][6], "assets/shaders/.compiled/scene.2d.vert");
}

#[test]
fn orchestrator_basename_of_plain_name() {
    let jobs = compile_shaders("main", None);
    assert_eq!(jobs[3][6], "assets/shaders/.compiled/main.vert");
}

#[test]
fn orchestrator_basename_of_trailing_slash_is_empty() {
    let jobs = compile_shaders("dir/", None);
    assert_eq!(jobs[0][6], "assets/shaders/.compiled/.frag.spv");
}

fn sample_doc() -> String {
    [
        "{\"name\":\"Scene 1\",\"aliasing\":0.001,\"gamma\":2.2,\"shapes\":[",
        "{\"shape_id\":0,\"data\":[1.5],",
        "\"transform\":{\"position\":{\"x\":0.1,\"y\":0.2},\"rotation\":0.0,\"scale\":1.0},",
        "\"material\":{\"color\":{\"r\":1.0,\"g\":0.5,\"b\":0.25,\"a\":1.0},",
        "\"onion\":null,\"rounding\":0.05}}]}",
    ]
    .join("")
}

#[test]
fn parse_reads_every_field() {
    let scene = SceneParser::parse_scene2d(&sample_doc()).unwrap();
    assert_eq!(scene.name, "Scene 1");
    assert_eq!(scene.aliasing, "0.001");
    assert_eq!(scene.gamma, "2.2");
    assert_eq!(scene.shapes.len(), 1);
    let shape = &scene.shapes[0];
    assert_eq!(shape.shape_id, ParsedShape2DType::Circle);
    assert_eq!(shape.data, vec!["1.5".to_string()]);
    assert_eq!(shape.transform.position.x, "0.1");
    assert_eq!(shape.transform.position.y, "0.2");
    assert_eq!(shape.transform.rotation, "0.0");
    assert_eq!(shape.transform.scale, "1.0");
    assert_eq!(shape.material.color.g, "0.5");
    assert_eq!(shape.material.onion, None);
    assert_eq!(shape.material.rounding, Some("0.05".to_string()));
}

#[test]
fn parse_accepts_integer_tokens_for_float_fields() {
    let doc = sample_doc().replace("\"aliasing\":0.001", "\"aliasing\":5");
    let scene = SceneParser::parse_scene2d(&doc).unwrap();
    assert_eq!(scene.aliasing, "5");
    let generated = scene.generate_shader("// {!!}").unwrap();
    assert!(generated.content.starts_with("    SDFScene2D scene = SDFScene2D(5);\n"));
}

#[test]
fn parse_rejects_invalid_json() {
    let out = SceneParser::parse_scene2d("{\"name\":");
    assert_eq!(out.err(), Some(SceneError::DecodeError));
}

#[test]
fn parse_rejects_missing_field() {
    let out = SceneParser::parse_scene2d("{\"name\":\"S\",\"gamma\":2.2,\"shapes\":[]}");
    assert_eq!(out.err(), Some(SceneError::DecodeError));
}

#[test]
fn parse_rejects_unknown_shape_discriminant() {
    let doc = sample_doc().replace("\"shape_id\":0", "\"shape_id\":3");
    let out = SceneParser::parse_scene2d(&doc);
    assert_eq!(out.err(), Some(SceneError::DecodeError));
}

#[test]
fn parse_rejects_arity_mismatch() {
    let doc = sample_doc().replace("\"data\":[1.5]", "\"data\":[1.5,2.0]");
    let out = SceneParser::parse_scene2d(&doc);
    assert_eq!(out.err(), Some(SceneError::DecodeError));
}

#[test]
fn parse_rejects_ill_typed_modifier() {
    let doc = sample_doc().replace("\"onion\":null", "\"onion\":\"thick\"");
    let out = SceneParser::parse_scene2d(&doc);
    assert_eq!(out.err(), Some(SceneError::DecodeError));
}

#[test]
fn parse_accepts_missing_modifier_fields() {
    let doc = sample_doc().replace(",\"onion\":null,\"rounding\":0.05", "");
    let scene = SceneParser::parse_scene2d(&doc).unwrap();
    assert_eq!(scene.shapes[0].material.onion, None);
    assert_eq!(scene.shapes[0].material.rounding, None);
}

#[test]
fn serialize_empty_scene_exactly() {
    let scene = ParsedScene2D {
        name: "S".to_string(),
        aliasing: "1".to_string(),
        gamma: "2".to_string(),
        shapes: vec![],
    };
    assert_eq!(scene.to_json_string(), "{\"name\":\"S\",\"aliasing\":1,\"gamma\":2,\"shapes\":[]}");
}

#[test]
fn serialize_escapes_the_name() {
    let scene = ParsedScene2D {
        name: "q\"\\\n\u{7}".to_string(),
        aliasing: "1".to_string(),
        gamma: "2".to_string(),
        shapes: vec![],
    };
    let text = scene.to_json_string();
    assert_eq!(
        text,
        "{\"name\":\"q\\\"\\\\\\n\\u0007\",\"aliasing\":1,\"gamma\":2,\"shapes\":[]}"
    );
    let again = SceneParser::parse_scene2d(&text).unwrap();
    assert!(scene.same_scene(&again));
}

#[test]
fn round_trip_keeps_the_scene() {
    let scene = SceneParser::parse_scene2d(&sample_doc()).unwrap();
    let text = scene.to_json_string();
    let again = SceneParser::parse_scene2d(&text).unwrap();
    assert!(scene.same_scene(&again));
}

#[test]
fn round_trip_keeps_a_quoted_name_and_both_modifiers() {
    let doc = [
        "{\"name\":\"A \\\"B\\\" c\",\"aliasing\":1.0,\"gamma\":1.0,\"shapes\":[",
        "{\"shape_id\":2,\"data\":[1.0,2.0,3.0,4.0],",
        "\"transform\":{\"position\":{\"x\":0.0,\"y\":0.0},\"rotation\":0.0,\"scale\":1.0},",
        "\"material\":{\"color\":{\"r\":0.0,\"g\":0.0,\"b\":0.0,\"a\":1.0},",
        "\"onion\":0.1,\"rounding\":0.2}}]}",
    ]
    .join("");
    let scene = SceneParser::parse_scene2d(&doc).unwrap();
    assert_eq!(scene.name, "A \"B\" c");
    assert_eq!(scene.shapes[0].material.onion, Some("0.1".to_string()));
    assert_eq!(scene.shapes[0].material.rounding, Some("0.2".to_string()));
    let again = SceneParser::parse_scene2d(&scene.to_json_string()).unwrap();
    assert!(scene.same_scene(&again));
}

#[test]
fn scenes_with_different_tokens_differ() {
    let scene = SceneParser::parse_scene2d(&sample_doc()).unwrap();
    let doc = sample_doc().replace("\"gamma\":2.2", "\"gamma\":2.4");
    let other = SceneParser::parse_scene2d(&doc).unwrap();
    assert!(!scene.same_scene(&other));
}
