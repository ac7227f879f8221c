//! The scene model: the in-memory form of a parsed 2D signed-distance-field
//! scene description, and the shader-source generator that consumes it.
//!
//! Every numeric quantity of a scene (a coordinate, a radius, a color
//! channel) is held as its decimal text.  The pipeline never computes with
//! these quantities: it reads them out of the scene document and writes
//! them into shader source, so the text itself is the value the logic
//! handles.
use vstd::prelude::*;
use vstd::string::StringExecFns;

use crate::codec::{decode_scene, spec_decode_scene};
use crate::constants::GENERATED_SHADERS_DIR;
use crate::json::{parse_json, spec_json_doc};
use crate::text::{
    lower_of, lowercase, replace_all, spec_contains, spec_nat_digits, spec_replace_all,
    usize_to_string,
};

verus! {

/// A fatal pipeline failure: the scene file could not be read, its
/// content is not a well-formed scene document, or a generated shader
/// could not be written.
#[derive(Clone, Copy, PartialEq, Eq, Structural, Debug)]
pub enum SceneError {
    ReadError,
    DecodeError,
    WriteError,
}

/// The closed set of shape kinds a scene may use.
#[derive(Clone, Copy, PartialEq, Eq, Structural, Debug)]
pub enum ParsedShape2DType {
    Circle,
    Rect,
    Segment,
}

/// A 2D point, both coordinates as decimal text.
#[derive(Debug, Clone)]
pub struct ParsedVec2 {
    pub x: String,
    pub y: String,
}

/// A 3D point, all coordinates as decimal text.
#[derive(Debug, Clone)]
pub struct ParsedVec3 {
    pub x: String,
    pub y: String,
    pub z: String,
}

/// A 4D point, all coordinates as decimal text.
#[derive(Debug, Clone)]
pub struct ParsedVec4 {
    pub x: String,
    pub y: String,
    pub z: String,
    pub w: String,
}

/// An RGBA color, each channel as decimal text.
#[derive(Debug, Clone)]
pub struct ParsedColor {
    pub r: String,
    pub g: String,
    pub b: String,
    pub a: String,
}

/// Position, rotation angle and uniform scale of one shape.
#[derive(Debug, Clone)]
pub struct ParsedTransform2D {
    pub position: ParsedVec2,
    pub rotation: String,
    pub scale: String,
}

/// Color plus at most one active distance modifier.  Both modifier fields
/// may arrive set in a legacy document; generation then gives `onion`
/// precedence.
#[derive(Debug, Clone)]
pub struct ParsedMaterial2D {
    pub color: ParsedColor,
    pub onion: Option<String>,
    pub rounding: Option<String>,
}

/// One shape of a scene: kind, kind-dependent parameter vector, transform
/// and material.
#[derive(Debug, Clone)]
pub struct ParsedShape2D {
    pub shape_id: ParsedShape2DType,
    pub data: Vec<String>,
    pub transform: ParsedTransform2D,
    pub material: ParsedMaterial2D,
}

/// A whole scene: its name (which fixes the output path), the scene-wide
/// antialiasing factor, the gamma exponent, and the ordered shapes.
#[derive(Debug, Clone)]
pub struct ParsedScene2D {
    pub name: String,
    pub aliasing: String,
    pub gamma: String,
    pub shapes: Vec<ParsedShape2D>,
}

/// Mathematical form of [`ParsedVec2`].
#[verifier::ext_equal]
pub ghost struct Vec2V {
    pub x: Seq<char>,
    pub y: Seq<char>,
}

/// Mathematical form of [`ParsedColor`].
#[verifier::ext_equal]
pub ghost struct ColorV {
    pub r: Seq<char>,
    pub g: Seq<char>,
    pub b: Seq<char>,
    pub a: Seq<char>,
}

/// Mathematical form of [`ParsedTransform2D`].
#[verifier::ext_equal]
pub ghost struct TransformV {
    pub position: Vec2V,
    pub rotation: Seq<char>,
    pub scale: Seq<char>,
}

/// Mathematical form of [`ParsedMaterial2D`].
#[verifier::ext_equal]
pub ghost struct MaterialV {
    pub color: ColorV,
    pub onion: Option<Seq<char>>,
    pub rounding: Option<Seq<char>>,
}

/// Mathematical form of [`ParsedShape2D`].
#[verifier::ext_equal]
pub ghost struct ShapeV {
    pub shape_id: ParsedShape2DType,
    pub data: Seq<Seq<char>>,
    pub transform: TransformV,
    pub material: MaterialV,
}

/// Mathematical form of [`ParsedScene2D`].
#[verifier::ext_equal]
pub ghost struct SceneV {
    pub name: Seq<char>,
    pub aliasing: Seq<char>,
    pub gamma: Seq<char>,
    pub shapes: Seq<ShapeV>,
}

impl View for ParsedVec2 {
    type V = Vec2V;

    open spec fn view(&self) -> Vec2V {
        Vec2V { x: self.x@, y: self.y@ }
    }
}

impl View for ParsedColor {
    type V = ColorV;

    open spec fn view(&self) -> ColorV {
        ColorV { r: self.r@, g: self.g@, b: self.b@, a: self.a@ }
    }
}

impl View for ParsedTransform2D {
    type V = TransformV;

    open spec fn view(&self) -> TransformV {
        TransformV { position: self.position@, rotation: self.rotation@, scale: self.scale@ }
    }
}

impl View for ParsedMaterial2D {
    type V = MaterialV;

    open spec fn view(&self) -> MaterialV {
        MaterialV {
            color: self.color@,
            onion: match self.onion {
                Some(t) => Some(t@),
                None => None,
            },
            rounding: match self.rounding {
                Some(t) => Some(t@),
                None => None,
            },
        }
    }
}

impl View for ParsedShape2D {
    type V = ShapeV;

    open spec fn view(&self) -> ShapeV {
        ShapeV {
            shape_id: self.shape_id,
            data: self.data.deep_view(),
            transform: self.transform@,
            material: self.material@,
        }
    }
}

impl View for ParsedScene2D {
    type V = SceneV;

    open spec fn view(&self) -> SceneV {
        SceneV {
            name: self.name@,
            aliasing: self.aliasing@,
            gamma: self.gamma@,
            shapes: self.shapes@.map_values(|sh: ParsedShape2D| sh@),
        }
    }
}

/// The fixed parameter count of each shape kind: radius for a circle,
/// half-extents for a rectangle, two endpoints for a segment.
pub open spec fn spec_arity(kind: ParsedShape2DType) -> nat {
    match kind {
        ParsedShape2DType::Circle => 1,
        ParsedShape2DType::Rect => 2,
        ParsedShape2DType::Segment => 4,
    }
}

/// A shape is well formed when its parameter vector has exactly its
/// kind's arity.
pub open spec fn shape_wf(sh: ShapeV) -> bool {
    sh.data.len() == spec_arity(sh.shape_id)
}

/// A scene is well formed when every shape is.
pub open spec fn scene_wf(sc: SceneV) -> bool {
    forall|i: int| 0 <= i < sc.shapes.len() ==> shape_wf(#[trigger] sc.shapes[i])
}

impl ParsedShape2DType {
    /// The parameter count this kind requires.
    pub fn arity(self) -> (n: usize)
        ensures
            n == spec_arity(self),
    {
        match self {
            ParsedShape2DType::Circle => 1,
            ParsedShape2DType::Rect => 2,
            ParsedShape2DType::Segment => 4,
        }
    }
}

fn opt_string_eq(a: &Option<String>, b: &Option<String>) -> (r: bool)
    ensures
        r == ((match a {
            Some(t) => Some(t@),
            None => None::<Seq<char>>,
        }) == (match b {
            Some(t) => Some(t@),
            None => None::<Seq<char>>,
        })),
{
    match (a, b) {
        (None, None) => true,
        (Some(x), Some(y)) => *x == *y,
        _ => false,
    }
}

fn vec_string_eq(a: &Vec<String>, b: &Vec<String>) -> (r: bool)
    ensures
        r == (a.deep_view() == b.deep_view()),
{
    if a.len() != b.len() {
        assert(a.deep_view().len() != b.deep_view().len());
        return false;
    }
    let mut i: usize = 0;
    while i < a.len()
        invariant
            i <= a@.len(),
            a@.len() == b@.len(),
            forall|k: int| 0 <= k < i ==> a.deep_view()[k] == b.deep_view()[k],
        decreases a@.len() - i,
    {
        if !(a[i] == b[i]) {
            assert(a.deep_view()[i as int] != b.deep_view()[i as int]);
            return false;
        }
        i = i + 1;
    }
    assert(a.deep_view() =~= b.deep_view());
    true
}

impl PartialEq for ParsedVec2 {
    fn eq(&self, other: &Self) -> (r: bool) {
        self.x == other.x && self.y == other.y
    }
}

impl vstd::std_specs::cmp::PartialEqSpecImpl for ParsedVec2 {
    open spec fn obeys_eq_spec() -> bool {
        true
    }

    open spec fn eq_spec(&self, other: &Self) -> bool {
        self@ == other@
    }
}

impl PartialEq for ParsedColor {
    fn eq(&self, other: &Self) -> (r: bool) {
        self.r == other.r && self.g == other.g && self.b == other.b && self.a == other.a
    }
}

impl vstd::std_specs::cmp::PartialEqSpecImpl for ParsedColor {
    open spec fn obeys_eq_spec() -> bool {
        true
    }

    open spec fn eq_spec(&self, other: &Self) -> bool {
        self@ == other@
    }
}

impl PartialEq for ParsedTransform2D {
    fn eq(&self, other: &Self) -> (r: bool) {
        self.position == other.position && self.rotation == other.rotation && self.scale
            == other.scale
    }
}

impl vstd::std_specs::cmp::PartialEqSpecImpl for ParsedTransform2D {
    open spec fn obeys_eq_spec() -> bool {
        true
    }

    open spec fn eq_spec(&self, other: &Self) -> bool {
        self@ == other@
    }
}

impl PartialEq for ParsedMaterial2D {
    fn eq(&self, other: &Self) -> (r: bool) {
        self.color == other.color && opt_string_eq(&self.onion, &other.onion) && opt_string_eq(
            &self.rounding,
            &other.rounding,
        )
    }
}

impl vstd::std_specs::cmp::PartialEqSpecImpl for ParsedMaterial2D {
    open spec fn obeys_eq_spec() -> bool {
        true
    }

    open spec fn eq_spec(&self, other: &Self) -> bool {
        self@ == other@
    }
}

impl PartialEq for ParsedShape2D {
    fn eq(&self, other: &Self) -> (r: bool) {
        self.shape_id == other.shape_id && vec_string_eq(&self.data, &other.data)
            && self.transform == other.transform && self.material == other.material
    }
}

impl vstd::std_specs::cmp::PartialEqSpecImpl for ParsedShape2D {
    open spec fn obeys_eq_spec() -> bool {
        true
    }

    open spec fn eq_spec(&self, other: &Self) -> bool {
        self@ == other@
    }
}

impl ParsedScene2D {
    /// Whether every shape carries exactly its kind's parameter count;
    /// only such a scene can be handed to the generator.
    pub fn is_well_formed(&self) -> (r: bool)
        ensures
            r == scene_wf(self@),
    {
        let mut i: usize = 0;
        while i < self.shapes.len()
            invariant
                i <= self.shapes@.len(),
                forall|k: int| 0 <= k < i ==> shape_wf(#[trigger] self@.shapes[k]),
            decreases self.shapes@.len() - i,
        {
            proof {
                assert(self@.shapes[i as int] == self.shapes@[i as int]@);
            }
            let shape = &self.shapes[i];
            if shape.data.len() != shape.shape_id.arity() {
                assert(!shape_wf(self@.shapes[i as int]));
                return false;
            }
            i = i + 1;
        }
        true
    }

    /// Structural equality over the whole scene model.
    pub fn same_scene(&self, other: &ParsedScene2D) -> (r: bool)
        ensures
            r == (self@ == other@),
    {
        if !(self.name == other.name) {
            return false;
        }
        if !(self.aliasing == other.aliasing) {
            return false;
        }
        if !(self.gamma == other.gamma) {
            return false;
        }
        if self.shapes.len() != other.shapes.len() {
            assert(self@.shapes.len() != other@.shapes.len());
            return false;
        }
        let mut i: usize = 0;
        while i < self.shapes.len()
            invariant
                i <= self.shapes@.len(),
                self.shapes@.len() == other.shapes@.len(),
                forall|k: int| 0 <= k < i ==> self@.shapes[k] == other@.shapes[k],
            decreases self.shapes@.len() - i,
        {
            if !(self.shapes[i] == other.shapes[i]) {
                assert(self@.shapes[i as int] != other@.shapes[i as int]);
                return false;
            }
            proof {
                assert(self@.shapes[i as int] == self.shapes@[i as int]@);
                assert(other@.shapes[i as int] == other.shapes@[i as int]@);
            }
            i = i + 1;
        }
        proof {
            assert(self@.shapes =~= other@.shapes);
            assert(self@ =~= other@);
        }
        true
    }
}

/// The declaration line of one shape: the kind's native constructor
/// applied to the parameter vector, positionally.
pub open spec fn spec_shape_decl(sh: ShapeV, idx: Seq<char>) -> Seq<char> {
    match sh.shape_id {
        ParsedShape2DType::Circle => "    SDFCircle shape"@ + idx + " = SDFCircle("@
            + sh.data[0] + ");\n"@,
        ParsedShape2DType::Rect => "    SDFRect shape"@ + idx + " = SDFRect("@ + sh.data[0]
            + ", "@ + sh.data[1] + ");\n"@,
        ParsedShape2DType::Segment => "    SDFSegment shape"@ + idx + " = SDFSegment(float2("@
            + sh.data[0] + ", "@ + sh.data[1] + "), float2("@ + sh.data[2] + ", "@ + sh.data[3]
            + "));\n"@,
    }
}

/// One field assignment of a shape block: `    shape<idx><field> = <value>;`.
pub open spec fn spec_assign_line(idx: Seq<char>, field: Seq<char>, value: Seq<char>) -> Seq<
    char,
> {
    "    shape"@ + idx + field + " = "@ + value + ";\n"@
}

/// The one contribution statement of a shape: the Onion form when `onion`
/// is set (whatever `rounding` holds), else the Rounded form when
/// `rounding` is set, else the plain form.
pub open spec fn spec_contribution(sh: ShapeV, idx: Seq<char>) -> Seq<char> {
    if sh.material.onion is Some {
        "    scene.add(shape"@ + idx + ".sdf(uv).onion("@ + sh.material.onion->0 + "));"@
    } else if sh.material.rounding is Some {
        "    scene.add(shape"@ + idx + ".sdf(uv).rounded("@ + sh.material.rounding->0 + "));"@
    } else {
        "    scene.add(shape"@ + idx + ".sdf(uv));"@
    }
}

/// The whole self-contained code block of the shape at zero-based index
/// `i`: declaration, four transform assignments, four color assignments,
/// and exactly one contribution statement, every local suffixed with the
/// decimal digits of `i`.
pub open spec fn spec_shape_block(sh: ShapeV, i: nat) -> Seq<char> {
    let idx = spec_nat_digits(i);
    spec_shape_decl(sh, idx) + spec_assign_line(idx, ".transform.position.x"@, sh.transform.position.x)
        + spec_assign_line(idx, ".transform.position.y"@, sh.transform.position.y)
        + spec_assign_line(idx, ".transform.rotation"@, sh.transform.rotation)
        + spec_assign_line(idx, ".transform.scale"@, sh.transform.scale)
        + spec_assign_line(idx, ".material.color.r"@, sh.material.color.r)
        + spec_assign_line(idx, ".material.color.g"@, sh.material.color.g)
        + spec_assign_line(idx, ".material.color.b"@, sh.material.color.b)
        + spec_assign_line(idx, ".material.color.a"@, sh.material.color.a)
        + spec_contribution(sh, idx)
}

fn append_assign(out: &mut String, idx: &String, field: &str, value: &String)
    ensures
        final(out)@ == old(out)@ + spec_assign_line(idx@, field@, value@),
{
    out.append("    shape");
    out.append(idx.as_str());
    out.append(field);
    out.append(" = ");
    out.append(value.as_str());
    out.append(";\n");
    assert(final(out)@ =~= old(out)@ + spec_assign_line(idx@, field@, value@));
}

impl ParsedShape2D {
    /// Emits this shape's self-contained code block, its locals suffixed
    /// with the zero-based index `index`.  A parameter vector whose
    /// length is not the kind's arity is a data-integrity defect: it is
    /// surfaced as an error, never indexed past or silently truncated.
    pub fn generate_shader_string(&self, index: usize) -> (r: Result<String, SceneError>)
        ensures
            shape_wf(self@) ==> r is Ok && r->Ok_0@ == spec_shape_block(self@, index as nat),
            !shape_wf(self@) ==> r == Err::<String, SceneError>(SceneError::DecodeError),
    {
        if self.data.len() != self.shape_id.arity() {
            return Err(SceneError::DecodeError);
        }
        let idx = usize_to_string(index);
        let mut shape_code = String::new();

        match self.shape_id {
            ParsedShape2DType::Circle => {
                shape_code.append("    SDFCircle shape");
                shape_code.append(idx.as_str());
                shape_code.append(" = SDFCircle(");
                shape_code.append(self.data[0].as_str());
                shape_code.append(");\n");
            },
            ParsedShape2DType::Rect => {
                shape_code.append("    SDFRect shape");
                shape_code.append(idx.as_str());
                shape_code.append(" = SDFRect(");
                shape_code.append(self.data[0].as_str());
                shape_code.append(", ");
                shape_code.append(self.data[1].as_str());
                shape_code.append(");\n");
            },
            ParsedShape2DType::Segment => {
                shape_code.append("    SDFSegment shape");
                shape_code.append(idx.as_str());
                shape_code.append(" = SDFSegment(float2(");
                shape_code.append(self.data[0].as_str());
                shape_code.append(", ");
                shape_code.append(self.data[1].as_str());
                shape_code.append("), float2(");
                shape_code.append(self.data[2].as_str());
                shape_code.append(", ");
                shape_code.append(self.data[3].as_str());
                shape_code.append("));\n");
            },
        }
        assert(shape_code@ =~= spec_shape_decl(self@, idx@));

        append_assign(&mut shape_code, &idx, ".transform.position.x", &self.transform.position.x);
        append_assign(&mut shape_code, &idx, ".transform.position.y", &self.transform.position.y);
        append_assign(&mut shape_code, &idx, ".transform.rotation", &self.transform.rotation);
        append_assign(&mut shape_code, &idx, ".transform.scale", &self.transform.scale);

        append_assign(&mut shape_code, &idx, ".material.color.r", &self.material.color.r);
        append_assign(&mut shape_code, &idx, ".material.color.g", &self.material.color.g);
        append_assign(&mut shape_code, &idx, ".material.color.b", &self.material.color.b);
        append_assign(&mut shape_code, &idx, ".material.color.a", &self.material.color.a);

        match &self.material.onion {
            Some(onion) => {
                shape_code.append("    scene.add(shape");
                shape_code.append(idx.as_str());
                shape_code.append(".sdf(uv).onion(");
                shape_code.append(onion.as_str());
                shape_code.append("));");
            },
            None => match &self.material.rounding {
                Some(rounding) => {
                    shape_code.append("    scene.add(shape");
                    shape_code.append(idx.as_str());
                    shape_code.append(".sdf(uv).rounded(");
                    shape_code.append(rounding.as_str());
                    shape_code.append("));");
                },
                None => {
                    shape_code.append("    scene.add(shape");
                    shape_code.append(idx.as_str());
                    shape_code.append(".sdf(uv));");
                },
            },
        }
        assert(shape_code@ =~= spec_shape_block(self@, index as nat));
        Ok(shape_code)
    }
}

/// The first `n` shape blocks of the scene, in input order.
pub open spec fn spec_blocks(shapes: Seq<ShapeV>, n: int) -> Seq<char>
    decreases n,
{
    if n <= 0 {
        Seq::empty()
    } else {
        spec_blocks(shapes, n - 1) + spec_shape_block(shapes[n - 1], (n - 1) as nat)
    }
}

/// The generated scene body: the accumulator declared once with the
/// scene's antialiasing value, one block per shape in input order, and
/// the closing statement that returns the rendered color raised to the
/// gamma exponent with alpha fixed to 1.0.
pub open spec fn spec_scene_body(sc: SceneV) -> Seq<char> {
    "    SDFScene2D scene = SDFScene2D("@ + sc.aliasing + ");\n"@ + spec_blocks(
        sc.shapes,
        sc.shapes.len() as int,
    ) + "    return pow(float4(scene.render(), 1.0), "@ + sc.gamma + ");"@
}

/// The basename derived from a scene name: lowercased, spaces replaced
/// by underscores.
pub open spec fn spec_scene_basename(name: Seq<char>) -> Seq<char> {
    spec_replace_all(lower_of(name), " "@, "_"@)
}

/// The deterministic output path of a scene's generated shader.
pub open spec fn spec_output_path(name: Seq<char>) -> Seq<char> {
    GENERATED_SHADERS_DIR@ + "/"@ + spec_scene_basename(name) + ".slang"@
}

/// The fixed marker token of the base shader template; the generated
/// scene body replaces every occurrence of it.
pub fn injection_marker() -> (s: &'static str)
    ensures
        s@ == "// {!!}"@,
{
    "// {!!}"
}

/// A generated shader, ready to be written to disk: its deterministic
/// output path, its full text, and whether the template's marker token
/// was found and replaced (when `injected` is false the text is the
/// unmodified template).
pub struct GeneratedShader {
    pub path: String,
    pub content: String,
    pub injected: bool,
}

impl ParsedScene2D {
    /// Derives the output path of this scene's generated shader.  Pure:
    /// a function of the scene name alone.
    pub fn shader_output_path(&self) -> (r: String)
        ensures
            r@ == spec_output_path(self@.name),
    {
        let lower = lowercase(self.name.as_str());
        proof {
            reveal_strlit(" ");
        }
        let base = replace_all(lower.as_str(), " ", "_");
        let mut path = GENERATED_SHADERS_DIR.to_owned();
        path.append("/");
        path.append(base.as_str());
        path.append(".slang");
        assert(path@ =~= spec_output_path(self@.name));
        path
    }

    /// Emits the scene body and injects it into the base shader template,
    /// replacing the marker token `// {!!}`.  When the marker is absent
    /// the content is a no-op copy of the template, and `injected` says
    /// so.  A scene holding any shape whose parameter vector is not its
    /// kind's arity is a data-integrity defect, surfaced as an error.
    pub fn generate_shader(&self, base_shader: &str) -> (r: Result<GeneratedShader, SceneError>)
        ensures
            scene_wf(self@) ==> r is Ok,
            scene_wf(self@) ==> r->Ok_0.path@ == spec_output_path(self@.name),
            scene_wf(self@) ==> r->Ok_0.content@ == spec_replace_all(
                base_shader@,
                "// {!!}"@,
                spec_scene_body(self@),
            ),
            scene_wf(self@) ==> r->Ok_0.injected == spec_contains(base_shader@, "// {!!}"@),
            !scene_wf(self@) ==> r == Err::<GeneratedShader, SceneError>(SceneError::DecodeError),
    {
        if !self.is_well_formed() {
            return Err(SceneError::DecodeError);
        }
        let mut scene_str = "    SDFScene2D scene = SDFScene2D(".to_owned();
        scene_str.append(self.aliasing.as_str());
        scene_str.append(");\n");

        let n = self.shapes.len();
        let mut i: usize = 0;
        while i < n
            invariant
                scene_wf(self@),
                n == self.shapes.len(),
                i <= n,
                scene_str@ == "    SDFScene2D scene = SDFScene2D("@ + self@.aliasing + ");\n"@
                    + spec_blocks(self@.shapes, i as int),
            decreases n - i,
        {
            proof {
                assert(self@.shapes[i as int] == self.shapes@[i as int]@);
            }
            let block = self.shapes[i].generate_shader_string(i).unwrap();
            scene_str.append(block.as_str());
            i = i + 1;
        }

        scene_str.append("    return pow(float4(scene.render(), 1.0), ");
        scene_str.append(self.gamma.as_str());
        scene_str.append(");");
        assert(scene_str@ =~= spec_scene_body(self@));

        proof {
            reveal_strlit("// {!!}");
        }
        let marker = injection_marker();
        let injected = crate::text::contains_pattern(base_shader, marker);
        let content = replace_all(base_shader, marker, scene_str.as_str());
        let path = self.shader_output_path();
        Ok(GeneratedShader { path, content, injected })
    }
}

/// The shape blocks from index `from` on, in input order.
pub open spec fn spec_blocks_after(shapes: Seq<ShapeV>, from: int) -> Seq<char>
    decreases shapes.len() - from,
{
    if from < 0 || from >= shapes.len() {
        Seq::empty()
    } else {
        spec_shape_block(shapes[from], from as nat) + spec_blocks_after(shapes, from + 1)
    }
}

proof fn lemma_blocks_concat(shapes: Seq<ShapeV>, k: int)
    requires
        0 <= k <= shapes.len(),
    ensures
        spec_blocks(shapes, shapes.len() as int) == spec_blocks(shapes, k) + spec_blocks_after(
            shapes,
            k,
        ),
    decreases shapes.len() - k,
{
    if k == shapes.len() {
        assert(spec_blocks(shapes, k) + spec_blocks_after(shapes, k) =~= spec_blocks(shapes, k));
    } else {
        lemma_blocks_concat(shapes, k + 1);
        assert(spec_blocks(shapes, k + 1) == spec_blocks(shapes, k) + spec_shape_block(
            shapes[k],
            k as nat,
        ));
        assert((spec_blocks(shapes, k) + spec_shape_block(shapes[k], k as nat))
            + spec_blocks_after(shapes, k + 1) =~= spec_blocks(shapes, k) + (spec_shape_block(
            shapes[k],
            k as nat,
        ) + spec_blocks_after(shapes, k + 1)));
    }
}

/// Law: the generated body holds exactly one block per shape, in input
/// order — around any index `i` the blocks split into those of the
/// shapes before `i`, the block of shape `i` (which carries that shape's
/// one contribution statement, suffixed with the digits of `i`), and the
/// blocks of the shapes after `i`.
pub proof fn lemma_block_per_shape_in_order(shapes: Seq<ShapeV>, i: int)
    requires
        0 <= i < shapes.len(),
    ensures
        spec_blocks(shapes, shapes.len() as int) == spec_blocks(shapes, i) + spec_shape_block(
            shapes[i],
            i as nat,
        ) + spec_blocks_after(shapes, i + 1),
{
    lemma_blocks_concat(shapes, i);
    assert(spec_blocks_after(shapes, i) == spec_shape_block(shapes[i], i as nat)
        + spec_blocks_after(shapes, i + 1));
    assert(spec_blocks(shapes, i) + (spec_shape_block(shapes[i], i as nat) + spec_blocks_after(
        shapes,
        i + 1,
    )) =~= spec_blocks(shapes, i) + spec_shape_block(shapes[i], i as nat) + spec_blocks_after(
        shapes,
        i + 1,
    ));
}

/// Law: modifier precedence — a shape with `onion` set contributes in
/// the Onion form, whatever `rounding` holds, and its contribution is
/// never the Rounded form, whatever value that form would carry.
pub proof fn lemma_modifier_precedence(sh: ShapeV, idx: Seq<char>, rounding_value: Seq<char>)
    requires
        sh.material.onion is Some,
    ensures
        spec_contribution(sh, idx) == "    scene.add(shape"@ + idx + ".sdf(uv).onion("@
            + sh.material.onion->0 + "));"@,
        spec_contribution(sh, idx) != "    scene.add(shape"@ + idx + ".sdf(uv).rounded("@
            + rounding_value + "));"@,
{
    reveal_strlit("    scene.add(shape");
    reveal_strlit(".sdf(uv).onion(");
    reveal_strlit(".sdf(uv).rounded(");
    reveal_strlit("));");
    let head = "    scene.add(shape"@ + idx;
    let onion_form = head + ".sdf(uv).onion("@ + sh.material.onion->0 + "));"@;
    let rounded_form = head + ".sdf(uv).rounded("@ + rounding_value + "));"@;
    let p = head.len() as int + 9;
    assert((head + ".sdf(uv).onion("@)[p] == ".sdf(uv).onion("@[9]);
    assert(".sdf(uv).onion("@[9] == 'o');
    assert(onion_form[p] == 'o');
    assert((head + ".sdf(uv).rounded("@)[p] == ".sdf(uv).rounded("@[9]);
    assert(".sdf(uv).rounded("@[9] == 'r');
    assert(rounded_form[p] == 'r');
}

/// Law: a shape with neither modifier set contributes in the plain form.
pub proof fn lemma_plain_contribution(sh: ShapeV, idx: Seq<char>)
    requires
        sh.material.onion is None,
        sh.material.rounding is None,
    ensures
        spec_contribution(sh, idx) == "    scene.add(shape"@ + idx + ".sdf(uv));"@,
{
}

/// Law: when the base template carries no marker token, injection
/// degrades to a no-op copy of the unmodified template, whatever body
/// was generated.
pub proof fn lemma_injection_noop(template: Seq<char>, body: Seq<char>)
    requires
        !spec_contains(template, "// {!!}"@),
    ensures
        spec_replace_all(template, "// {!!}"@, body) == template,
{
    crate::text::lemma_replace_absent_is_noop(template, "// {!!}"@, body);
}

/// Deserializes scene documents into the scene model.
pub struct SceneParser;

impl SceneParser {
    /// Parses the text of a scene document, all or nothing.  Fails with
    /// `DecodeError` exactly when the text is not a JSON document or its
    /// tree is not a well-formed scene description (a missing or
    /// ill-typed field, an unknown shape discriminant, or a parameter
    /// vector whose length is not its kind's arity).
    pub fn parse_scene2d(scene_text: &str) -> (r: Result<ParsedScene2D, SceneError>)
        ensures
            match spec_json_doc(scene_text@) {
                None => r == Err::<ParsedScene2D, SceneError>(SceneError::DecodeError),
                Some(doc) => match spec_decode_scene(doc) {
                    None => r == Err::<ParsedScene2D, SceneError>(SceneError::DecodeError),
                    Some(sv) => r is Ok && r->Ok_0@ == sv,
                },
            },
    {
        match parse_json(scene_text) {
            Some(tree) => match decode_scene(&tree) {
                Some(scene) => Ok(scene),
                None => Err(SceneError::DecodeError),
            },
            None => Err(SceneError::DecodeError),
        }
    }
}

} // verus!
