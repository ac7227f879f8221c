use sdf2d_pipeline::scene_parsing::{
    injection_marker, ParsedColor, ParsedMaterial2D, ParsedScene2D, ParsedShape2D,
    ParsedShape2DType, ParsedTransform2D, ParsedVec2, SceneError,
};

fn transform(x: &str, y: &str, rotation: &str, scale: &str) -> ParsedTransform2D {
    ParsedTransform2D {
        position: ParsedVec2 { x: x.to_string(), y: y.to_string() },
        rotation: rotation.to_string(),
        scale: scale.to_string(),
    }
}

fn material(
    r: &str,
    g: &str,
    b: &str,
    a: &str,
    onion: Option<&str>,
    rounding: Option<&str>,
) -> ParsedMaterial2D {
    ParsedMaterial2D {
        color: ParsedColor {
            r: r.to_string(),
            g: g.to_string(),
            b: b.to_string(),
            a: a.to_string(),
        },
        onion: onion.map(|t| t.to_string()),
        rounding: rounding.map(|t| t.to_string()),
    }
}

fn circle(radius: &str, onion: Option<&str>, rounding: Option<&str>) -> ParsedShape2D {
    ParsedShape2D {
        shape_id: ParsedShape2DType::Circle,
        data: vec![radius.to_string()],
        transform: transform("0.1", "0.2", "0.3", "2"),
        material: material("1", "0.5", "0.25", "1", onion, rounding),
    }
}

fn scene(name: &str, shapes: Vec<ParsedShape2D>) -> ParsedScene2D {
    ParsedScene2D {
        name: name.to_string(),
        aliasing: "0.001".to_string(),
        gamma: "2.2".to_string(),
        shapes,
    }
}

#[test]
fn circle_block_plain_form() {
    let block = circle("1.5", None, None).generate_shader_string(0).unwrap();
    let expected = [
        "    SDFCircle shape0 = SDFCircle(1.5);\n",
        "    shape0.transform.position.x = 0.1;\n",
        "    shape0.transform.position.y = 0.2;\n",
        "    shape0.transform.rotation = 0.3;\n",
        "    shape0.transform.scale = 2;\n",
        "    shape0.material.color.r = 1;\n",
        "    shape0.material.color.g = 0.5;\n",
        "    shape0.material.color.b = 0.25;\n",
        "    shape0.material.color.a = 1;\n",
        "    scene.add(shape0.sdf(uv));",
    ]
    .join("");
    assert_eq!(block, expected);
}

#[test]
fn rect_block_constructor_takes_two_parameters() {
    let shape = ParsedShape2D {
        shape_id: ParsedShape2DType::Rect,
        data: vec!["0.5".to_string(), "0.75".to_string()],
        transform: transform("0", "0", "0", "1"),
        material: material("1", "1", "1", "1", None, None),
    };
    let block = shape.generate_shader_string(3).unwrap();
    assert!(block.starts_with("    SDFRect shape3 = SDFRect(0.5, 0.75);\n"));
    assert!(block.ends_with("    scene.add(shape3.sdf(uv));"));
}

#[test]
fn segment_block_constructor_takes_two_points() {
    let shape = ParsedShape2D {
        shape_id: ParsedShape2DType::Segment,
        data: vec!["1".to_string(), "2".to_string(), "3".to_string(), "4".to_string()],
        transform: transform("0", "0", "0", "1"),
        material: material("1", "1", "1", "1", None, None),
    };
    let block = shape.generate_shader_string(7).unwrap();
    assert!(block.starts_with(
        "    SDFSegment shape7 = SDFSegment(float2(1, 2), float2(3, 4));\n"
    ));
}

#[test]
fn onion_wins_over_rounding() {
    let block = circle("1.5", Some("0.1"), Some("0.2")).generate_shader_string(0).unwrap();
    assert!(block.ends_with("    scene.add(shape0.sdf(uv).onion(0.1));"));
    assert!(!block.contains(".rounded("));
}

#[test]
fn rounding_alone_gives_rounded_form() {
    let block = circle("1.5", None, Some("0.2")).generate_shader_string(0).unwrap();
    assert!(block.ends_with("    scene.add(shape0.sdf(uv).rounded(0.2));"));
    assert!(!block.contains(".onion("));
}

#[test]
fn no_modifier_gives_plain_form() {
    let block = circle("1.5", None, None).generate_shader_string(0).unwrap();
    assert!(block.ends_with("    scene.add(shape0.sdf(uv));"));
    assert!(!block.contains(".onion("));
    assert!(!block.contains(".rounded("));
}

#[test]
fn one_contribution_per_shape_in_input_order() {
    let sc = scene("S", vec![circle("1", None, None), circle("2", Some("0.3"), None)]);
    let generated = sc.generate_shader("// {!!}").unwrap();
    let body = generated.content;
    assert_eq!(body.matches("scene.add(").count(), 2);
    let first = body.find("    scene.add(shape0.sdf(uv));").unwrap();
    let second = body.find("    scene.add(shape1.sdf(uv).onion(0.3));").unwrap();
    assert!(first < second);
    let decl0 = body.find("SDFCircle shape0 = SDFCircle(1);").unwrap();
    let decl1 = body.find("SDFCircle shape1 = SDFCircle(2);").unwrap();
    assert!(decl0 < decl1);
}

#[test]
fn index_suffixes_stay_distinct_past_ten_shapes() {
    let shapes: Vec<ParsedShape2D> = (0..12).map(|_| circle("1", None, None)).collect();
    let sc = scene("S", shapes);
    let generated = sc.generate_shader("// {!!}").unwrap();
    assert!(generated.content.contains("SDFCircle shape10 = SDFCircle(1);"));
    assert!(generated.content.contains("SDFCircle shape11 = SDFCircle(1);"));
    assert_eq!(generated.content.matches("scene.add(").count(), 12);
}

#[test]
fn body_is_injected_at_marker() {
    let sc = scene("Scene One", vec![circle("1.5", None, None)]);
    let template = "header\n// {!!}\nfooter";
    let generated = sc.generate_shader(template).unwrap();
    assert!(generated.injected);
    let expected = [
        "header\n",
        "    SDFScene2D scene = SDFScene2D(0.001);\n",
        "    SDFCircle shape0 = SDFCircle(1.5);\n",
        "    shape0.transform.position.x = 0.1;\n",
        "    shape0.transform.position.y = 0.2;\n",
        "    shape0.transform.rotation = 0.3;\n",
        "    shape0.transform.scale = 2;\n",
        "    shape0.material.color.r = 1;\n",
        "    shape0.material.color.g = 0.5;\n",
        "    shape0.material.color.b = 0.25;\n",
        "    shape0.material.color.a = 1;\n",
        "    scene.add(shape0.sdf(uv));",
        "    return pow(float4(scene.render(), 1.0), 2.2);",
        "\nfooter",
    ]
    .join("");
    assert_eq!(generated.content, expected);
}

#[test]
fn missing_marker_degrades_to_template_copy() {
    let sc = scene("S", vec![circle("1", None, None)]);
    let template = "no marker here";
    let generated = sc.generate_shader(template).unwrap();
    assert!(!generated.injected);
    assert_eq!(generated.content, template);
}

#[test]
fn generator_rejects_arity_mismatch() {
    let mut two_radii = circle("1.5", None, None);
    two_radii.data.push("2.0".to_string());
    assert_eq!(two_radii.clone().generate_shader_string(0).err(), Some(SceneError::DecodeError));
    let sc = scene("S", vec![circle("1", None, None), two_radii]);
    assert_eq!(sc.generate_shader("// {!!}").err(), Some(SceneError::DecodeError));
}

#[test]
fn well_formedness_checks_every_shape_arity() {
    let good = scene("S", vec![circle("1", None, None)]);
    assert!(good.is_well_formed());
    let mut no_radius = circle("1", None, None);
    no_radius.data.clear();
    let bad = scene("S", vec![circle("1", None, None), no_radius]);
    assert!(!bad.is_well_formed());
}

#[test]
fn marker_token_is_fixed() {
    assert_eq!(injection_marker(), "// {!!}");
}

#[test]
fn empty_scene_generates_header_and_footer_only() {
    let sc = scene("S", vec![]);
    let generated = sc.generate_shader("// {!!}").unwrap();
    let expected = [
        "    SDFScene2D scene = SDFScene2D(0.001);\n",
        "    return pow(float4(scene.render(), 1.0), 2.2);",
    ]
    .join("");
    assert_eq!(generated.content, expected);
}

#[test]
fn output_path_lowercases_and_underscores() {
    let sc = scene("Scene One", vec![]);
    assert_eq!(sc.shader_output_path(), "assets/shaders/.generated/scene_one.slang");
    let other = scene("A B", vec![]);
    assert_eq!(other.shader_output_path(), "assets/shaders/.generated/a_b.slang");
}

#[test]
fn output_path_is_deterministic() {
    let sc = scene("Scene One", vec![circle("1", None, None)]);
    let first = sc.shader_output_path();
    let second = sc.shader_output_path();
    assert_eq!(first, second);
    assert_eq!(sc.generate_shader("// {!!}").unwrap().path, first);
}
