//! Decoding a JSON document tree into the scene model, and the exact
//! document form a scene takes when it is serialized again.
//!
//! Decoding is all-or-nothing: a missing or ill-typed field, an unknown
//! shape discriminant, or a parameter vector whose length is not its
//! kind's arity makes the whole document undecodable.  Unknown extra
//! fields are ignored, as the scene-document format allows.
use vstd::prelude::*;

use crate::json::{spec_json_string, spec_elems_view, spec_fields_view, JsonV, JsonValue};
use crate::scene_parsing::{
    spec_arity, ColorV, MaterialV, ParsedColor, ParsedMaterial2D, ParsedScene2D, ParsedShape2D,
    ParsedShape2DType, ParsedTransform2D, ParsedVec2, SceneV, ShapeV, TransformV, Vec2V,
};

verus! {

/// The value of the first field named `key`, if any.
pub open spec fn spec_lookup(fields: Seq<(Seq<char>, JsonV)>, key: Seq<char>) -> Option<JsonV>
    decreases fields.len(),
{
    if fields.len() == 0 {
        None
    } else if fields[0].0 == key {
        Some(fields[0].1)
    } else {
        spec_lookup(fields.drop_first(), key)
    }
}

/// The decimal text of a number node.
pub open spec fn spec_decode_num(j: JsonV) -> Option<Seq<char>> {
    match j {
        JsonV::Num(t) => Some(t),
        _ => None,
    }
}

/// An optional number field: absent or `null` is a valid empty value, a
/// number is a valid present value, anything else is invalid.
pub open spec fn spec_decode_opt_num(field: Option<JsonV>) -> Option<Option<Seq<char>>> {
    match field {
        None => Some(None),
        Some(JsonV::Null) => Some(None),
        Some(JsonV::Num(t)) => Some(Some(t)),
        Some(_) => None,
    }
}

/// The shape-kind discriminant: the integer tokens 0, 1 and 2 name
/// Circle, Rect and Segment.
pub open spec fn spec_decode_kind(j: JsonV) -> Option<ParsedShape2DType> {
    match j {
        JsonV::Num(t) => if t == "0"@ {
            Some(ParsedShape2DType::Circle)
        } else if t == "1"@ {
            Some(ParsedShape2DType::Rect)
        } else if t == "2"@ {
            Some(ParsedShape2DType::Segment)
        } else {
            None
        },
        _ => None,
    }
}

/// A point object `{x, y}` of two numbers.
pub open spec fn spec_decode_vec2(j: JsonV) -> Option<Vec2V> {
    if !(j is Obj) {
        None
    } else {
        let x = spec_lookup(j->Obj_0, "x"@);
        let y = spec_lookup(j->Obj_0, "y"@);
        if x is Some && x->0 is Num && y is Some && y->0 is Num {
            Some(Vec2V { x: x->0->Num_0, y: y->0->Num_0 })
        } else {
            None
        }
    }
}

/// A color object `{r, g, b, a}` of four numbers.
pub open spec fn spec_decode_color(j: JsonV) -> Option<ColorV> {
    if !(j is Obj) {
        None
    } else {
        let r = spec_lookup(j->Obj_0, "r"@);
        let g = spec_lookup(j->Obj_0, "g"@);
        let b = spec_lookup(j->Obj_0, "b"@);
        let a = spec_lookup(j->Obj_0, "a"@);
        if r is Some && r->0 is Num && g is Some && g->0 is Num && b is Some && b->0 is Num
            && a is Some && a->0 is Num {
            Some(
                ColorV {
                    r: r->0->Num_0,
                    g: g->0->Num_0,
                    b: b->0->Num_0,
                    a: a->0->Num_0,
                },
            )
        } else {
            None
        }
    }
}

/// A transform object `{position, rotation, scale}`.
pub open spec fn spec_decode_transform(j: JsonV) -> Option<TransformV> {
    if !(j is Obj) {
        None
    } else {
        let position = spec_lookup(j->Obj_0, "position"@);
        let rotation = spec_lookup(j->Obj_0, "rotation"@);
        let scale = spec_lookup(j->Obj_0, "scale"@);
        if position is Some && spec_decode_vec2(position->0) is Some && rotation is Some
            && rotation->0 is Num && scale is Some && scale->0 is Num {
            Some(
                TransformV {
                    position: spec_decode_vec2(position->0)->0,
                    rotation: rotation->0->Num_0,
                    scale: scale->0->Num_0,
                },
            )
        } else {
            None
        }
    }
}

/// A material object `{color, onion?, rounding?}`.
pub open spec fn spec_decode_material(j: JsonV) -> Option<MaterialV> {
    if !(j is Obj) {
        None
    } else {
        let color = spec_lookup(j->Obj_0, "color"@);
        let onion = spec_decode_opt_num(spec_lookup(j->Obj_0, "onion"@));
        let rounding = spec_decode_opt_num(spec_lookup(j->Obj_0, "rounding"@));
        if color is Some && spec_decode_color(color->0) is Some && onion is Some
            && rounding is Some {
            Some(
                MaterialV {
                    color: spec_decode_color(color->0)->0,
                    onion: onion->0,
                    rounding: rounding->0,
                },
            )
        } else {
            None
        }
    }
}

/// The parameter vector: every element a number.
pub open spec fn spec_decode_nums(items: Seq<JsonV>) -> Option<Seq<Seq<char>>>
    decreases items.len(),
{
    if items.len() == 0 {
        Some(Seq::empty())
    } else if items[0] is Num {
        match spec_decode_nums(items.drop_first()) {
            Some(rest) => Some(seq![items[0]->Num_0] + rest),
            None => None,
        }
    } else {
        None
    }
}

/// A shape object `{shape_id, data, transform, material}`; the parameter
/// vector must have exactly the kind's arity.
pub open spec fn spec_decode_shape(j: JsonV) -> Option<ShapeV> {
    if !(j is Obj) {
        None
    } else {
        let kind = spec_lookup(j->Obj_0, "shape_id"@);
        let data = spec_lookup(j->Obj_0, "data"@);
        let transform = spec_lookup(j->Obj_0, "transform"@);
        let material = spec_lookup(j->Obj_0, "material"@);
        if kind is Some && spec_decode_kind(kind->0) is Some && data is Some && data->0 is Arr
            && spec_decode_nums(data->0->Arr_0) is Some && transform is Some
            && spec_decode_transform(transform->0) is Some && material is Some
            && spec_decode_material(material->0) is Some && spec_decode_nums(
            data->0->Arr_0,
        )->0.len() == spec_arity(spec_decode_kind(kind->0)->0) {
            Some(
                ShapeV {
                    shape_id: spec_decode_kind(kind->0)->0,
                    data: spec_decode_nums(data->0->Arr_0)->0,
                    transform: spec_decode_transform(transform->0)->0,
                    material: spec_decode_material(material->0)->0,
                },
            )
        } else {
            None
        }
    }
}

/// The shape list: every element a decodable shape.
pub open spec fn spec_decode_shapes(items: Seq<JsonV>) -> Option<Seq<ShapeV>>
    decreases items.len(),
{
    if items.len() == 0 {
        Some(Seq::empty())
    } else if spec_decode_shape(items[0]) is Some {
        match spec_decode_shapes(items.drop_first()) {
            Some(rest) => Some(seq![spec_decode_shape(items[0])->0] + rest),
            None => None,
        }
    } else {
        None
    }
}

/// A scene document `{name, aliasing, gamma, shapes}`.
pub open spec fn spec_decode_scene(j: JsonV) -> Option<SceneV> {
    if !(j is Obj) {
        None
    } else {
        let name = spec_lookup(j->Obj_0, "name"@);
        let aliasing = spec_lookup(j->Obj_0, "aliasing"@);
        let gamma = spec_lookup(j->Obj_0, "gamma"@);
        let shapes = spec_lookup(j->Obj_0, "shapes"@);
        if name is Some && name->0 is Str && aliasing is Some && aliasing->0 is Num
            && gamma is Some && gamma->0 is Num && shapes is Some && shapes->0 is Arr
            && spec_decode_shapes(shapes->0->Arr_0) is Some {
            Some(
                SceneV {
                    name: name->0->Str_0,
                    aliasing: aliasing->0->Num_0,
                    gamma: gamma->0->Num_0,
                    shapes: spec_decode_shapes(shapes->0->Arr_0)->0,
                },
            )
        } else {
            None
        }
    }
}

proof fn lemma_lookup_skip(fields: Seq<(Seq<char>, JsonV)>, key: Seq<char>, i: int)
    requires
        0 <= i <= fields.len(),
        forall|k: int| 0 <= k < i ==> (#[trigger] fields[k]).0 != key,
    ensures
        spec_lookup(fields, key) == spec_lookup(fields.skip(i), key),
    decreases i,
{
    if i > 0 {
        lemma_lookup_skip(fields, key, i - 1);
        assert(fields.skip(i - 1).len() > 0);
        assert(fields.skip(i - 1)[0] == fields[i - 1]);
        assert(fields[i - 1].0 != key);
        assert(spec_lookup(fields.skip(i - 1), key) == spec_lookup(
            fields.skip(i - 1).drop_first(),
            key,
        ));
        assert(fields.skip(i - 1).drop_first() =~= fields.skip(i));
    } else {
        assert(fields.skip(0) =~= fields);
    }
}

fn lookup<'a>(fields: &'a Vec<(String, JsonValue)>, key: &String) -> (r: Option<&'a JsonValue>)
    ensures
        match r {
            Some(v) => spec_lookup(spec_fields_view(fields@), key@) == Some(v@),
            None => spec_lookup(spec_fields_view(fields@), key@) is None,
        },
{
    let ghost fv = spec_fields_view(fields@);
    let mut i: usize = 0;
    while i < fields.len()
        invariant
            i <= fields@.len(),
            fv == spec_fields_view(fields@),
            fv.len() == fields@.len(),
            forall|k: int| 0 <= k < i ==> (#[trigger] fv[k]).0 != key@,
        decreases fields@.len() - i,
    {
        let pair = &fields[i];
        if pair.0 == *key {
            proof {
                lemma_lookup_skip(fv, key@, i as int);
                assert(fv.skip(i as int)[0] == fv[i as int]);
            }
            return Some(&pair.1);
        }
        i = i + 1;
    }
    proof {
        lemma_lookup_skip(fv, key@, i as int);
        assert(fv.skip(i as int).len() == 0);
    }
    None
}

fn decode_num(j: &JsonValue) -> (r: Option<String>)
    ensures
        match r {
            Some(t) => spec_decode_num(j@) == Some(t@),
            None => spec_decode_num(j@) is None,
        },
{
    match j {
        JsonValue::Num(t) => Some(t.clone()),
        _ => None,
    }
}

fn decode_opt_num(field: Option<&JsonValue>) -> (r: Option<Option<String>>)
    ensures
        match r {
            Some(opt) => spec_decode_opt_num(
                match field {
                    Some(v) => Some(v@),
                    None => None,
                },
            ) == Some(
                match opt {
                    Some(t) => Some(t@),
                    None => None,
                },
            ),
            None => spec_decode_opt_num(
                match field {
                    Some(v) => Some(v@),
                    None => None,
                },
            ) is None,
        },
{
    match field {
        None => Some(None),
        Some(JsonValue::Null) => Some(None),
        Some(JsonValue::Num(t)) => Some(Some(t.clone())),
        Some(_) => None,
    }
}

fn decode_kind(j: &JsonValue) -> (r: Option<ParsedShape2DType>)
    ensures
        match r {
            Some(k) => spec_decode_kind(j@) == Some(k),
            None => spec_decode_kind(j@) is None,
        },
{
    match j {
        JsonValue::Num(t) => {
            let zero: String = "0".to_owned();
            let one: String = "1".to_owned();
            let two: String = "2".to_owned();
            if *t == zero {
                Some(ParsedShape2DType::Circle)
            } else if *t == one {
                Some(ParsedShape2DType::Rect)
            } else if *t == two {
                Some(ParsedShape2DType::Segment)
            } else {
                None
            }
        },
        _ => None,
    }
}

fn decode_vec2(j: &JsonValue) -> (r: Option<ParsedVec2>)
    ensures
        match r {
            Some(v) => spec_decode_vec2(j@) == Some(v@),
            None => spec_decode_vec2(j@) is None,
        },
{
    match j {
        JsonValue::Obj(fields) => {
            let key_x: String = "x".to_owned();
            let key_y: String = "y".to_owned();
            match (lookup(fields, &key_x), lookup(fields, &key_y)) {
                (Some(xj), Some(yj)) => match (decode_num(xj), decode_num(yj)) {
                    (Some(x), Some(y)) => Some(ParsedVec2 { x, y }),
                    _ => None,
                },
                _ => None,
            }
        },
        _ => None,
    }
}

fn decode_color(j: &JsonValue) -> (r: Option<ParsedColor>)
    ensures
        match r {
            Some(c) => spec_decode_color(j@) == Some(c@),
            None => spec_decode_color(j@) is None,
        },
{
    match j {
        JsonValue::Obj(fields) => {
            let key_r: String = "r".to_owned();
            let key_g: String = "g".to_owned();
            let key_b: String = "b".to_owned();
            let key_a: String = "a".to_owned();
            match (lookup(fields, &key_r), lookup(fields, &key_g), lookup(fields, &key_b), lookup(
                fields,
                &key_a,
            )) {
                (Some(rj), Some(gj), Some(bj), Some(aj)) => match (decode_num(rj), decode_num(
                    gj,
                ), decode_num(bj), decode_num(aj)) {
                    (Some(r), Some(g), Some(b), Some(a)) => Some(ParsedColor { r, g, b, a }),
                    _ => None,
                },
                _ => None,
            }
        },
        _ => None,
    }
}

fn decode_transform(j: &JsonValue) -> (r: Option<ParsedTransform2D>)
    ensures
        match r {
            Some(t) => spec_decode_transform(j@) == Some(t@),
            None => spec_decode_transform(j@) is None,
        },
{
    match j {
        JsonValue::Obj(fields) => {
            let key_position: String = "position".to_owned();
            let key_rotation: String = "rotation".to_owned();
            let key_scale: String = "scale".to_owned();
            match (lookup(fields, &key_position), lookup(fields, &key_rotation), lookup(
                fields,
                &key_scale,
            )) {
                (Some(pj), Some(rj), Some(sj)) => match (decode_vec2(pj), decode_num(rj), decode_num(
                    sj,
                )) {
                    (Some(position), Some(rotation), Some(scale)) => Some(
                        ParsedTransform2D { position, rotation, scale },
                    ),
                    _ => None,
                },
                _ => None,
            }
        },
        _ => None,
    }
}

fn decode_material(j: &JsonValue) -> (r: Option<ParsedMaterial2D>)
    ensures
        match r {
            Some(m) => spec_decode_material(j@) == Some(m@),
            None => spec_decode_material(j@) is None,
        },
{
    match j {
        JsonValue::Obj(fields) => {
            let key_color: String = "color".to_owned();
            let key_onion: String = "onion".to_owned();
            let key_rounding: String = "rounding".to_owned();
            let color_field = lookup(fields, &key_color);
            let onion_field = decode_opt_num(lookup(fields, &key_onion));
            let rounding_field = decode_opt_num(lookup(fields, &key_rounding));
            match (color_field, onion_field, rounding_field) {
                (Some(cj), Some(onion), Some(rounding)) => match decode_color(cj) {
                    Some(color) => Some(ParsedMaterial2D { color, onion, rounding }),
                    None => None,
                },
                _ => None,
            }
        },
        _ => None,
    }
}

proof fn lemma_decode_nums_elems(s: Seq<JsonV>)
    ensures
        spec_decode_nums(s) is Some <==> (forall|k: int| 0 <= k < s.len() ==> s[k] is Num),
        spec_decode_nums(s) is Some ==> {
            &&& spec_decode_nums(s)->0.len() == s.len()
            &&& forall|k: int|
                0 <= k < s.len() ==> spec_decode_nums(s)->0[k] == (#[trigger] s[k])->Num_0
        },
    decreases s.len(),
{
    if s.len() > 0 {
        lemma_decode_nums_elems(s.drop_first());
        assert(forall|k: int| 1 <= k < s.len() ==> s.drop_first()[k - 1] == #[trigger] s[k]);
    }
}

fn decode_nums(items: &Vec<JsonValue>) -> (r: Option<Vec<String>>)
    ensures
        match r {
            Some(v) => spec_decode_nums(spec_elems_view(items@)) == Some(v.deep_view()),
            None => spec_decode_nums(spec_elems_view(items@)) is None,
        },
{
    let ghost ev = spec_elems_view(items@);
    let mut out: Vec<String> = Vec::new();
    let mut i: usize = 0;
    while i < items.len()
        invariant
            i <= items@.len(),
            ev == spec_elems_view(items@),
            ev.len() == items@.len(),
            out@.len() == i,
            forall|k: int| 0 <= k < i ==> (#[trigger] ev[k]) is Num,
            forall|k: int| 0 <= k < i ==> out.deep_view()[k] == (#[trigger] ev[k])->Num_0,
        decreases items@.len() - i,
    {
        match &items[i] {
            JsonValue::Num(t) => {
                out.push(t.clone());
            },
            _ => {
                proof {
                    assert(!(ev[i as int] is Num));
                    lemma_decode_nums_elems(ev);
                }
                return None;
            },
        }
        i = i + 1;
    }
    proof {
        lemma_decode_nums_elems(ev);
        assert forall|k: int| 0 <= k < ev.len() implies spec_decode_nums(ev)->0[k]
            == out.deep_view()[k] by {
            assert(ev[k] is Num);
            assert(out.deep_view()[k] == ev[k]->Num_0);
        }
        assert(spec_decode_nums(ev)->0 =~= out.deep_view());
    }
    Some(out)
}

fn decode_shape(j: &JsonValue) -> (r: Option<ParsedShape2D>)
    ensures
        match r {
            Some(sh) => spec_decode_shape(j@) == Some(sh@),
            None => spec_decode_shape(j@) is None,
        },
{
    match j {
        JsonValue::Obj(fields) => {
            let key_shape_id: String = "shape_id".to_owned();
            let key_data: String = "data".to_owned();
            let key_transform: String = "transform".to_owned();
            let key_material: String = "material".to_owned();
            let kind_field = lookup(fields, &key_shape_id);
            let data_field = lookup(fields, &key_data);
            let transform_field = lookup(fields, &key_transform);
            let material_field = lookup(fields, &key_material);
            match (kind_field, data_field, transform_field, material_field) {
                (Some(kj), Some(dj), Some(tj), Some(mj)) => {
                    let kind = decode_kind(kj);
                    let items = match dj {
                        JsonValue::Arr(items) => items,
                        _ => {
                            return None;
                        },
                    };
                    match (kind, decode_nums(items), decode_transform(tj), decode_material(mj)) {
                        (Some(shape_id), Some(data), Some(transform), Some(material)) => {
                            if data.len() == shape_id.arity() {
                                Some(ParsedShape2D { shape_id, data, transform, material })
                            } else {
                                None
                            }
                        },
                        _ => None,
                    }
                },
                _ => None,
            }
        },
        _ => None,
    }
}

proof fn lemma_decode_shapes_elems(s: Seq<JsonV>)
    ensures
        spec_decode_shapes(s) is Some <==> (forall|k: int|
            0 <= k < s.len() ==> spec_decode_shape(#[trigger] s[k]) is Some),
        spec_decode_shapes(s) is Some ==> {
            &&& spec_decode_shapes(s)->0.len() == s.len()
            &&& forall|k: int|
                0 <= k < s.len() ==> spec_decode_shapes(s)->0[k] == spec_decode_shape(
                    #[trigger] s[k],
                )->0
        },
    decreases s.len(),
{
    if s.len() > 0 {
        lemma_decode_shapes_elems(s.drop_first());
        assert(forall|k: int| 1 <= k < s.len() ==> s.drop_first()[k - 1] == #[trigger] s[k]);
    }
}

fn decode_shapes(items: &Vec<JsonValue>) -> (r: Option<Vec<ParsedShape2D>>)
    ensures
        match r {
            Some(v) => spec_decode_shapes(spec_elems_view(items@)) == Some(
                v@.map_values(|sh: ParsedShape2D| sh@),
            ),
            None => spec_decode_shapes(spec_elems_view(items@)) is None,
        },
{
    let ghost ev = spec_elems_view(items@);
    let mut out: Vec<ParsedShape2D> = Vec::new();
    let mut i: usize = 0;
    while i < items.len()
        invariant
            i <= items@.len(),
            ev == spec_elems_view(items@),
            ev.len() == items@.len(),
            out@.len() == i,
            forall|k: int| 0 <= k < i ==> spec_decode_shape(#[trigger] ev[k]) is Some,
            forall|k: int|
                0 <= k < i ==> out@.map_values(|sh: ParsedShape2D| sh@)[k] == spec_decode_shape(
                    #[trigger] ev[k],
                )->0,
        decreases items@.len() - i,
    {
        match decode_shape(&items[i]) {
            Some(sh) => {
                out.push(sh);
            },
            None => {
                proof {
                    assert(spec_decode_shape(ev[i as int]) is None);
                    lemma_decode_shapes_elems(ev);
                }
                return None;
            },
        }
        i = i + 1;
    }
    proof {
        lemma_decode_shapes_elems(ev);
        assert forall|k: int| 0 <= k < ev.len() implies spec_decode_shapes(ev)->0[k]
            == out@.map_values(|sh: ParsedShape2D| sh@)[k] by {
            assert(spec_decode_shape(ev[k]) is Some);
            assert(out@.map_values(|sh: ParsedShape2D| sh@)[k] == spec_decode_shape(ev[k])->0);
        }
        assert(spec_decode_shapes(ev)->0 =~= out@.map_values(|sh: ParsedShape2D| sh@));
    }
    Some(out)
}

/// Decodes a whole scene document tree; `None` when any part of the
/// document is not a well-formed scene description.
pub fn decode_scene(j: &JsonValue) -> (r: Option<ParsedScene2D>)
    ensures
        match r {
            Some(sc) => spec_decode_scene(j@) == Some(sc@),
            None => spec_decode_scene(j@) is None,
        },
{
    match j {
        JsonValue::Obj(fields) => {
            let key_name: String = "name".to_owned();
            let key_aliasing: String = "aliasing".to_owned();
            let key_gamma: String = "gamma".to_owned();
            let key_shapes: String = "shapes".to_owned();
            let name_field = lookup(fields, &key_name);
            let aliasing_field = lookup(fields, &key_aliasing);
            let gamma_field = lookup(fields, &key_gamma);
            let shapes_field = lookup(fields, &key_shapes);
            match (name_field, aliasing_field, gamma_field, shapes_field) {
                (Some(nj), Some(aj), Some(gj), Some(sj)) => {
                    let name = match nj {
                        JsonValue::Str(name) => name.clone(),
                        _ => {
                            return None;
                        },
                    };
                    let items = match sj {
                        JsonValue::Arr(items) => items,
                        _ => {
                            return None;
                        },
                    };
                    match (decode_num(aj), decode_num(gj), decode_shapes(items)) {
                        (Some(aliasing), Some(gamma), Some(shapes)) => Some(
                            ParsedScene2D { name, aliasing, gamma, shapes },
                        ),
                        _ => None,
                    }
                },
                _ => None,
            }
        },
        _ => None,
    }
}

/// Law: an arity violation never passes decoding — every shape of a
/// decoded scene carries exactly its kind's parameter count, so a
/// decoded scene is always well formed.
pub proof fn lemma_decoded_scene_wf(j: JsonV)
    requires
        spec_decode_scene(j) is Some,
    ensures
        crate::scene_parsing::scene_wf(spec_decode_scene(j)->0),
{
    let sc = spec_decode_scene(j)->0;
    let items = spec_lookup(j->Obj_0, "shapes"@)->0->Arr_0;
    lemma_decode_shapes_elems(items);
    assert(sc.shapes == spec_decode_shapes(items)->0);
    assert forall|i: int| 0 <= i < sc.shapes.len() implies crate::scene_parsing::shape_wf(
        #[trigger] sc.shapes[i],
    ) by {
        assert(spec_decode_shape(items[i]) is Some);
        assert(sc.shapes[i] == spec_decode_shape(items[i])->0);
    }
}

/// The document node of a shape-kind: its integer discriminant.
pub open spec fn spec_encode_kind(k: ParsedShape2DType) -> JsonV {
    match k {
        ParsedShape2DType::Circle => JsonV::Num("0"@),
        ParsedShape2DType::Rect => JsonV::Num("1"@),
        ParsedShape2DType::Segment => JsonV::Num("2"@),
    }
}

/// The document node of a point.
pub open spec fn spec_encode_vec2(v: Vec2V) -> JsonV {
    JsonV::Obj(seq![("x"@, JsonV::Num(v.x)), ("y"@, JsonV::Num(v.y))])
}

/// The document node of a color.
pub open spec fn spec_encode_color(c: ColorV) -> JsonV {
    JsonV::Obj(
        seq![
            ("r"@, JsonV::Num(c.r)),
            ("g"@, JsonV::Num(c.g)),
            ("b"@, JsonV::Num(c.b)),
            ("a"@, JsonV::Num(c.a)),
        ],
    )
}

/// The document node of a transform.
pub open spec fn spec_encode_transform(t: TransformV) -> JsonV {
    JsonV::Obj(
        seq![
            ("position"@, spec_encode_vec2(t.position)),
            ("rotation"@, JsonV::Num(t.rotation)),
            ("scale"@, JsonV::Num(t.scale)),
        ],
    )
}

/// The document node of an optional number: `null` when absent, as the
/// scene-document format writes empty modifiers.
pub open spec fn spec_encode_opt_num(o: Option<Seq<char>>) -> JsonV {
    match o {
        Some(t) => JsonV::Num(t),
        None => JsonV::Null,
    }
}

/// The document node of a material.
pub open spec fn spec_encode_material(m: MaterialV) -> JsonV {
    JsonV::Obj(
        seq![
            ("color"@, spec_encode_color(m.color)),
            ("onion"@, spec_encode_opt_num(m.onion)),
            ("rounding"@, spec_encode_opt_num(m.rounding)),
        ],
    )
}

/// The document nodes of a parameter vector.
pub open spec fn spec_encode_nums(data: Seq<Seq<char>>) -> Seq<JsonV> {
    Seq::new(data.len(), |i: int| JsonV::Num(data[i]))
}

/// The document node of one shape.
pub open spec fn spec_encode_shape(sh: ShapeV) -> JsonV {
    JsonV::Obj(
        seq![
            ("shape_id"@, spec_encode_kind(sh.shape_id)),
            ("data"@, JsonV::Arr(spec_encode_nums(sh.data))),
            ("transform"@, spec_encode_transform(sh.transform)),
            ("material"@, spec_encode_material(sh.material)),
        ],
    )
}

/// The document nodes of a shape list.
pub open spec fn spec_encode_shapes(shapes: Seq<ShapeV>) -> Seq<JsonV> {
    Seq::new(shapes.len(), |i: int| spec_encode_shape(shapes[i]))
}

/// The document tree of a whole scene, fields in the order the scene
/// model declares them.
pub open spec fn spec_encode_scene(sc: SceneV) -> JsonV {
    JsonV::Obj(
        seq![
            ("name"@, JsonV::Str(sc.name)),
            ("aliasing"@, JsonV::Num(sc.aliasing)),
            ("gamma"@, JsonV::Num(sc.gamma)),
            ("shapes"@, JsonV::Arr(spec_encode_shapes(sc.shapes))),
        ],
    )
}

/// The printed form of a point node.
pub open spec fn spec_print_vec2(v: Vec2V) -> Seq<char> {
    "{\"x\":"@ + v.x + ",\"y\":"@ + v.y + "}"@
}

/// The printed form of a color node.
pub open spec fn spec_print_color(c: ColorV) -> Seq<char> {
    "{\"r\":"@ + c.r + ",\"g\":"@ + c.g + ",\"b\":"@ + c.b + ",\"a\":"@ + c.a + "}"@
}

/// The printed form of a transform node.
pub open spec fn spec_print_transform(t: TransformV) -> Seq<char> {
    "{\"position\":"@ + spec_print_vec2(t.position) + ",\"rotation\":"@ + t.rotation
        + ",\"scale\":"@ + t.scale + "}"@
}

/// The printed form of an optional number: `null` when absent.
pub open spec fn spec_print_opt_num(o: Option<Seq<char>>) -> Seq<char> {
    match o {
        Some(t) => t,
        None => "null"@,
    }
}

/// The printed form of a material node.
pub open spec fn spec_print_material(m: MaterialV) -> Seq<char> {
    "{\"color\":"@ + spec_print_color(m.color) + ",\"onion\":"@ + spec_print_opt_num(m.onion)
        + ",\"rounding\":"@ + spec_print_opt_num(m.rounding) + "}"@
}

/// The printed form of a shape-kind discriminant.
pub open spec fn spec_print_kind(k: ParsedShape2DType) -> Seq<char> {
    match k {
        ParsedShape2DType::Circle => "0"@,
        ParsedShape2DType::Rect => "1"@,
        ParsedShape2DType::Segment => "2"@,
    }
}

/// The first `n` of the given printed elements, comma-separated.
pub open spec fn spec_print_list(elems: Seq<Seq<char>>, n: int) -> Seq<char>
    decreases n,
{
    if n <= 0 {
        Seq::empty()
    } else if n == 1 {
        elems[0]
    } else {
        spec_print_list(elems, n - 1) + ","@ + elems[n - 1]
    }
}

/// The printed form of one shape node.
pub open spec fn spec_print_shape(sh: ShapeV) -> Seq<char> {
    "{\"shape_id\":"@ + spec_print_kind(sh.shape_id) + ",\"data\":["@ + spec_print_list(
        sh.data,
        sh.data.len() as int,
    ) + "],\"transform\":"@ + spec_print_transform(sh.transform) + ",\"material\":"@
        + spec_print_material(sh.material) + "}"@
}

/// The printed form of a whole scene document: compact JSON, fields in
/// the order the scene model declares them, the name quoted and escaped
/// as `serde_json` prints strings, every numeric token verbatim.
pub open spec fn spec_print_scene(sc: SceneV) -> Seq<char> {
    "{\"name\":"@ + spec_json_string(sc.name) + ",\"aliasing\":"@ + sc.aliasing + ",\"gamma\":"@
        + sc.gamma + ",\"shapes\":["@ + spec_print_list(
        sc.shapes.map_values(|sh: ShapeV| spec_print_shape(sh)),
        sc.shapes.len() as int,
    ) + "]}"@
}

fn print_vec2(v: &ParsedVec2) -> (r: String)
    ensures
        r@ == spec_print_vec2(v@),
{
    let mut out = "{\"x\":".to_owned();
    out.append(v.x.as_str());
    out.append(",\"y\":");
    out.append(v.y.as_str());
    out.append("}");
    assert(out@ =~= spec_print_vec2(v@));
    out
}

fn print_color(c: &ParsedColor) -> (r: String)
    ensures
        r@ == spec_print_color(c@),
{
    let mut out = "{\"r\":".to_owned();
    out.append(c.r.as_str());
    out.append(",\"g\":");
    out.append(c.g.as_str());
    out.append(",\"b\":");
    out.append(c.b.as_str());
    out.append(",\"a\":");
    out.append(c.a.as_str());
    out.append("}");
    assert(out@ =~= spec_print_color(c@));
    out
}

fn print_transform(t: &ParsedTransform2D) -> (r: String)
    ensures
        r@ == spec_print_transform(t@),
{
    let mut out = "{\"position\":".to_owned();
    let position = print_vec2(&t.position);
    out.append(position.as_str());
    out.append(",\"rotation\":");
    out.append(t.rotation.as_str());
    out.append(",\"scale\":");
    out.append(t.scale.as_str());
    out.append("}");
    assert(out@ =~= spec_print_transform(t@));
    out
}

fn append_opt_num(out: &mut String, o: &Option<String>)
    ensures
        final(out)@ == old(out)@ + spec_print_opt_num(
            match o {
                Some(t) => Some(t@),
                None => None,
            },
        ),
{
    match o {
        Some(t) => out.append(t.as_str()),
        None => out.append("null"),
    }
}

fn print_material(m: &ParsedMaterial2D) -> (r: String)
    ensures
        r@ == spec_print_material(m@),
{
    let mut out = "{\"color\":".to_owned();
    let color = print_color(&m.color);
    out.append(color.as_str());
    out.append(",\"onion\":");
    append_opt_num(&mut out, &m.onion);
    out.append(",\"rounding\":");
    append_opt_num(&mut out, &m.rounding);
    out.append("}");
    assert(out@ =~= spec_print_material(m@));
    out
}

fn print_shape(sh: &ParsedShape2D) -> (r: String)
    ensures
        r@ == spec_print_shape(sh@),
{
    let mut out = "{\"shape_id\":".to_owned();
    match sh.shape_id {
        ParsedShape2DType::Circle => out.append("0"),
        ParsedShape2DType::Rect => out.append("1"),
        ParsedShape2DType::Segment => out.append("2"),
    }
    out.append(",\"data\":[");
    let ghost data_start = out@;
    let mut i: usize = 0;
    while i < sh.data.len()
        invariant
            i <= sh.data@.len(),
            sh@.data.len() == sh.data@.len(),
            out@ == data_start + spec_print_list(sh@.data, i as int),
        decreases sh.data@.len() - i,
    {
        if i > 0 {
            out.append(",");
        }
        out.append(sh.data[i].as_str());
        proof {
            assert(sh@.data[i as int] == sh.data@[i as int]@);
            assert(out@ =~= data_start + spec_print_list(sh@.data, i + 1));
        }
        i = i + 1;
    }
    out.append("],\"transform\":");
    let transform = print_transform(&sh.transform);
    out.append(transform.as_str());
    out.append(",\"material\":");
    let material = print_material(&sh.material);
    out.append(material.as_str());
    out.append("}");
    assert(out@ =~= spec_print_shape(sh@));
    out
}

impl ParsedScene2D {
    /// Serializes this scene back to the compact JSON document form it is
    /// parsed from.
    pub fn to_json_string(&self) -> (r: String)
        ensures
            r@ == spec_print_scene(self@),
    {
        let mut out = "{\"name\":".to_owned();
        let name = crate::json::json_quote(self.name.as_str());
        out.append(name.as_str());
        out.append(",\"aliasing\":");
        out.append(self.aliasing.as_str());
        out.append(",\"gamma\":");
        out.append(self.gamma.as_str());
        out.append(",\"shapes\":[");
        let ghost printed = self@.shapes.map_values(|sh: ShapeV| spec_print_shape(sh));
        let ghost shapes_start = out@;
        let mut i: usize = 0;
        while i < self.shapes.len()
            invariant
                i <= self.shapes@.len(),
                printed == self@.shapes.map_values(|sh: ShapeV| spec_print_shape(sh)),
                printed.len() == self.shapes@.len(),
                out@ == shapes_start + spec_print_list(printed, i as int),
            decreases self.shapes@.len() - i,
        {
            if i > 0 {
                out.append(",");
            }
            let shape = print_shape(&self.shapes[i]);
            out.append(shape.as_str());
            proof {
                assert(self@.shapes[i as int] == self.shapes@[i as int]@);
                assert(printed[i as int] == spec_print_shape(self.shapes@[i as int]@));
                assert(out@ =~= shapes_start + spec_print_list(printed, i + 1));
            }
            i = i + 1;
        }
        out.append("]}");
        assert(out@ =~= spec_print_scene(self@));
        out
    }
}

proof fn lemma_rt_vec2(v: Vec2V)
    ensures
        spec_decode_vec2(spec_encode_vec2(v)) == Some(v),
{
    reveal_strlit("x");
    reveal_strlit("y");
    let fields = seq![("x"@, JsonV::Num(v.x)), ("y"@, JsonV::Num(v.y))];
    assert("x"@[0] == 'x' && "y"@[0] == 'y');
    assert("x"@ != "y"@);
    assert(spec_lookup(fields, "x"@) == Some(JsonV::Num(v.x)));
    assert(fields.drop_first() =~= seq![("y"@, JsonV::Num(v.y))]);
    assert(spec_lookup(fields.drop_first(), "y"@) == Some(JsonV::Num(v.y)));
    assert(spec_lookup(fields, "y"@) == Some(JsonV::Num(v.y)));
    assert(spec_decode_vec2(spec_encode_vec2(v))->0 =~= v);
}

proof fn lemma_rt_color(c: ColorV)
    ensures
        spec_decode_color(spec_encode_color(c)) == Some(c),
{
    reveal_strlit("r");
    reveal_strlit("g");
    reveal_strlit("b");
    reveal_strlit("a");
    let f0 = seq![
        ("r"@, JsonV::Num(c.r)),
        ("g"@, JsonV::Num(c.g)),
        ("b"@, JsonV::Num(c.b)),
        ("a"@, JsonV::Num(c.a)),
    ];
    let f1 = f0.drop_first();
    let f2 = f1.drop_first();
    let f3 = f2.drop_first();
    assert(f1 =~= seq![("g"@, JsonV::Num(c.g)), ("b"@, JsonV::Num(c.b)), ("a"@, JsonV::Num(c.a))]);
    assert(f2 =~= seq![("b"@, JsonV::Num(c.b)), ("a"@, JsonV::Num(c.a))]);
    assert(f3 =~= seq![("a"@, JsonV::Num(c.a))]);
    assert("r"@[0] == 'r' && "g"@[0] == 'g' && "b"@[0] == 'b' && "a"@[0] == 'a');
    assert("r"@ != "g"@ && "r"@ != "b"@ && "r"@ != "a"@ && "g"@ != "b"@ && "g"@ != "a"@ && "b"@
        != "a"@);
    assert(spec_lookup(f0, "r"@) == Some(JsonV::Num(c.r)));
    assert(spec_lookup(f0, "g"@) == spec_lookup(f1, "g"@));
    assert(spec_lookup(f1, "g"@) == Some(JsonV::Num(c.g)));
    assert(spec_lookup(f0, "b"@) == spec_lookup(f1, "b"@));
    assert(spec_lookup(f1, "b"@) == spec_lookup(f2, "b"@));
    assert(spec_lookup(f2, "b"@) == Some(JsonV::Num(c.b)));
    assert(spec_lookup(f0, "a"@) == spec_lookup(f1, "a"@));
    assert(spec_lookup(f1, "a"@) == spec_lookup(f2, "a"@));
    assert(spec_lookup(f2, "a"@) == spec_lookup(f3, "a"@));
    assert(spec_lookup(f3, "a"@) == Some(JsonV::Num(c.a)));
    assert(spec_decode_color(spec_encode_color(c))->0 =~= c);
}

proof fn lemma_rt_transform(t: TransformV)
    ensures
        spec_decode_transform(spec_encode_transform(t)) == Some(t),
{
    reveal_strlit("position");
    reveal_strlit("rotation");
    reveal_strlit("scale");
    lemma_rt_vec2(t.position);
    let f0 = seq![
        ("position"@, spec_encode_vec2(t.position)),
        ("rotation"@, JsonV::Num(t.rotation)),
        ("scale"@, JsonV::Num(t.scale)),
    ];
    let f1 = f0.drop_first();
    let f2 = f1.drop_first();
    assert(f1 =~= seq![("rotation"@, JsonV::Num(t.rotation)), ("scale"@, JsonV::Num(t.scale))]);
    assert(f2 =~= seq![("scale"@, JsonV::Num(t.scale))]);
    assert("position"@[0] == 'p' && "rotation"@[0] == 'r' && "scale"@[0] == 's');
    assert("position"@ != "rotation"@ && "position"@ != "scale"@ && "rotation"@ != "scale"@);
    assert(spec_lookup(f0, "position"@) == Some(spec_encode_vec2(t.position)));
    assert(spec_lookup(f0, "rotation"@) == spec_lookup(f1, "rotation"@));
    assert(spec_lookup(f1, "rotation"@) == Some(JsonV::Num(t.rotation)));
    assert(spec_lookup(f0, "scale"@) == spec_lookup(f1, "scale"@));
    assert(spec_lookup(f1, "scale"@) == spec_lookup(f2, "scale"@));
    assert(spec_lookup(f2, "scale"@) == Some(JsonV::Num(t.scale)));
    assert(spec_decode_transform(spec_encode_transform(t))->0 =~= t);
}

proof fn lemma_rt_material(m: MaterialV)
    ensures
        spec_decode_material(spec_encode_material(m)) == Some(m),
{
    reveal_strlit("color");
    reveal_strlit("onion");
    reveal_strlit("rounding");
    lemma_rt_color(m.color);
    let f0 = seq![
        ("color"@, spec_encode_color(m.color)),
        ("onion"@, spec_encode_opt_num(m.onion)),
        ("rounding"@, spec_encode_opt_num(m.rounding)),
    ];
    let f1 = f0.drop_first();
    let f2 = f1.drop_first();
    assert(f1 =~= seq![
        ("onion"@, spec_encode_opt_num(m.onion)),
        ("rounding"@, spec_encode_opt_num(m.rounding)),
    ]);
    assert(f2 =~= seq![("rounding"@, spec_encode_opt_num(m.rounding))]);
    assert("color"@[0] == 'c' && "onion"@[0] == 'o' && "rounding"@[0] == 'r');
    assert("color"@ != "onion"@ && "color"@ != "rounding"@ && "onion"@ != "rounding"@);
    assert(spec_lookup(f0, "color"@) == Some(spec_encode_color(m.color)));
    assert(spec_lookup(f0, "onion"@) == spec_lookup(f1, "onion"@));
    assert(spec_lookup(f1, "onion"@) == Some(spec_encode_opt_num(m.onion)));
    assert(spec_lookup(f0, "rounding"@) == spec_lookup(f1, "rounding"@));
    assert(spec_lookup(f1, "rounding"@) == spec_lookup(f2, "rounding"@));
    assert(spec_lookup(f2, "rounding"@) == Some(spec_encode_opt_num(m.rounding)));
    assert(spec_decode_opt_num(Some(spec_encode_opt_num(m.onion))) == Some(m.onion));
    assert(spec_decode_opt_num(Some(spec_encode_opt_num(m.rounding))) == Some(m.rounding));
    assert(spec_decode_material(spec_encode_material(m))->0 =~= m);
}

proof fn lemma_rt_kind(k: ParsedShape2DType)
    ensures
        spec_decode_kind(spec_encode_kind(k)) == Some(k),
{
    reveal_strlit("0");
    reveal_strlit("1");
    reveal_strlit("2");
    assert("1"@[0] == '1' && "0"@[0] == '0' && "2"@[0] == '2');
}

proof fn lemma_rt_nums(data: Seq<Seq<char>>)
    ensures
        spec_decode_nums(spec_encode_nums(data)) == Some(data),
    decreases data.len(),
{
    let enc = spec_encode_nums(data);
    if data.len() == 0 {
        assert(data =~= Seq::<Seq<char>>::empty());
    } else {
        lemma_rt_nums(data.drop_first());
        assert(enc[0] == JsonV::Num(data[0]));
        assert(enc.drop_first() =~= spec_encode_nums(data.drop_first()));
        assert(seq![data[0]] + data.drop_first() =~= data);
    }
}

proof fn lemma_rt_shape(sh: ShapeV)
    requires
        crate::scene_parsing::shape_wf(sh),
    ensures
        spec_decode_shape(spec_encode_shape(sh)) == Some(sh),
{
    reveal_strlit("shape_id");
    reveal_strlit("data");
    reveal_strlit("transform");
    reveal_strlit("material");
    lemma_rt_kind(sh.shape_id);
    lemma_rt_nums(sh.data);
    lemma_rt_transform(sh.transform);
    lemma_rt_material(sh.material);
    let f0 = seq![
        ("shape_id"@, spec_encode_kind(sh.shape_id)),
        ("data"@, JsonV::Arr(spec_encode_nums(sh.data))),
        ("transform"@, spec_encode_transform(sh.transform)),
        ("material"@, spec_encode_material(sh.material)),
    ];
    let f1 = f0.drop_first();
    let f2 = f1.drop_first();
    let f3 = f2.drop_first();
    assert(f1 =~= seq![
        ("data"@, JsonV::Arr(spec_encode_nums(sh.data))),
        ("transform"@, spec_encode_transform(sh.transform)),
        ("material"@, spec_encode_material(sh.material)),
    ]);
    assert(f2 =~= seq![
        ("transform"@, spec_encode_transform(sh.transform)),
        ("material"@, spec_encode_material(sh.material)),
    ]);
    assert(f3 =~= seq![("material"@, spec_encode_material(sh.material))]);
    assert("shape_id"@[0] == 's' && "data"@[0] == 'd' && "transform"@[0] == 't' && "material"@[0]
        == 'm');
    assert("shape_id"@ != "data"@ && "shape_id"@ != "transform"@ && "shape_id"@ != "material"@
        && "data"@ != "transform"@ && "data"@ != "material"@ && "transform"@ != "material"@);
    assert(spec_lookup(f0, "shape_id"@) == Some(spec_encode_kind(sh.shape_id)));
    assert(spec_lookup(f0, "data"@) == spec_lookup(f1, "data"@));
    assert(spec_lookup(f1, "data"@) == Some(JsonV::Arr(spec_encode_nums(sh.data))));
    assert(spec_lookup(f0, "transform"@) == spec_lookup(f1, "transform"@));
    assert(spec_lookup(f1, "transform"@) == spec_lookup(f2, "transform"@));
    assert(spec_lookup(f2, "transform"@) == Some(spec_encode_transform(sh.transform)));
    assert(spec_lookup(f0, "material"@) == spec_lookup(f1, "material"@));
    assert(spec_lookup(f1, "material"@) == spec_lookup(f2, "material"@));
    assert(spec_lookup(f2, "material"@) == spec_lookup(f3, "material"@));
    assert(spec_lookup(f3, "material"@) == Some(spec_encode_material(sh.material)));
    assert(spec_decode_shape(spec_encode_shape(sh))->0 =~= sh);
}

proof fn lemma_rt_shapes(shapes: Seq<ShapeV>)
    requires
        forall|i: int| 0 <= i < shapes.len() ==> crate::scene_parsing::shape_wf(
            #[trigger] shapes[i],
        ),
    ensures
        spec_decode_shapes(spec_encode_shapes(shapes)) == Some(shapes),
    decreases shapes.len(),
{
    let enc = spec_encode_shapes(shapes);
    if shapes.len() == 0 {
        assert(shapes =~= Seq::<ShapeV>::empty());
    } else {
        assert(forall|i: int|
            0 <= i < shapes.drop_first().len() ==> #[trigger] shapes.drop_first()[i] == shapes[i
                + 1]);
        lemma_rt_shapes(shapes.drop_first());
        lemma_rt_shape(shapes[0]);
        assert(enc[0] == spec_encode_shape(shapes[0]));
        assert(enc.drop_first() =~= spec_encode_shapes(shapes.drop_first()));
        assert(seq![shapes[0]] + shapes.drop_first() =~= shapes);
    }
}

/// Law: the scene-document form of a well-formed scene decodes back to
/// exactly that scene — serializing and parsing a scene description is
/// the identity on the scene model.
pub proof fn lemma_scene_round_trip(sc: SceneV)
    requires
        crate::scene_parsing::scene_wf(sc),
    ensures
        spec_decode_scene(spec_encode_scene(sc)) == Some(sc),
{
    reveal_strlit("name");
    reveal_strlit("aliasing");
    reveal_strlit("gamma");
    reveal_strlit("shapes");
    lemma_rt_shapes(sc.shapes);
    let f0 = seq![
        ("name"@, JsonV::Str(sc.name)),
        ("aliasing"@, JsonV::Num(sc.aliasing)),
        ("gamma"@, JsonV::Num(sc.gamma)),
        ("shapes"@, JsonV::Arr(spec_encode_shapes(sc.shapes))),
    ];
    let f1 = f0.drop_first();
    let f2 = f1.drop_first();
    let f3 = f2.drop_first();
    assert(f1 =~= seq![
        ("aliasing"@, JsonV::Num(sc.aliasing)),
        ("gamma"@, JsonV::Num(sc.gamma)),
        ("shapes"@, JsonV::Arr(spec_encode_shapes(sc.shapes))),
    ]);
    assert(f2 =~= seq![
        ("gamma"@, JsonV::Num(sc.gamma)),
        ("shapes"@, JsonV::Arr(spec_encode_shapes(sc.shapes))),
    ]);
    assert(f3 =~= seq![("shapes"@, JsonV::Arr(spec_encode_shapes(sc.shapes)))]);
    assert("name"@[0] == 'n' && "aliasing"@[0] == 'a' && "gamma"@[0] == 'g' && "shapes"@[0]
        == 's');
    assert("name"@ != "aliasing"@ && "name"@ != "gamma"@ && "name"@ != "shapes"@ && "aliasing"@
        != "gamma"@ && "aliasing"@ != "shapes"@ && "gamma"@ != "shapes"@);
    assert(spec_lookup(f0, "name"@) == Some(JsonV::Str(sc.name)));
    assert(spec_lookup(f0, "aliasing"@) == spec_lookup(f1, "aliasing"@));
    assert(spec_lookup(f1, "aliasing"@) == Some(JsonV::Num(sc.aliasing)));
    assert(spec_lookup(f0, "gamma"@) == spec_lookup(f1, "gamma"@));
    assert(spec_lookup(f1, "gamma"@) == spec_lookup(f2, "gamma"@));
    assert(spec_lookup(f2, "gamma"@) == Some(JsonV::Num(sc.gamma)));
    assert(spec_lookup(f0, "shapes"@) == spec_lookup(f1, "shapes"@));
    assert(spec_lookup(f1, "shapes"@) == spec_lookup(f2, "shapes"@));
    assert(spec_lookup(f2, "shapes"@) == spec_lookup(f3, "shapes"@));
    assert(spec_lookup(f3, "shapes"@) == Some(JsonV::Arr(spec_encode_shapes(sc.shapes))));
    assert(spec_decode_scene(spec_encode_scene(sc))->0 =~= sc);
}

} // verus!
