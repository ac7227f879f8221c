//! Compile jobs for the external `slangc` shader compiler: an incremental
//! builder that validates its three required fields at execution time, and
//! the orchestrator that expands one generated shader into the fixed
//! four-job matrix {Vertex, Fragment} x {SpirV, Glsl}.
//!
//! The library computes each job's full argument list and the fixed plan;
//! launching the external process (and isolating its failures) is the
//! caller's side of the contract.
use vstd::prelude::*;
use vstd::string::StringExecFns;

use crate::constants::{
    COMPILED_SHADERS_DIR, MATH_UTILS_CORE_DIR, MATH_UTILS_DIR, SDF2D_CORE_DIR, SDF2D_DIR,
};
use crate::text::{after_last_slash, before_last_dot, spec_after_last_slash, spec_before_last_dot};

verus! {

/// One of the two programmable pipeline stages a shader is compiled for.
#[derive(Clone, Copy, PartialEq, Eq, Structural, Debug)]
pub enum ShaderStage {
    Fragment,
    Vertex,
}

/// The output representation of a compiled shader.
#[derive(Clone, Copy, PartialEq, Eq, Structural, Debug)]
pub enum ShaderTarget {
    SpirV,
    Glsl,
}

/// The compiler profile token handed to `slangc`.
#[derive(Clone, Copy, PartialEq, Eq, Structural, Debug)]
pub enum ShaderProfile {
    Glsl450,
}

/// A job was built incompletely: one of the three required fields is
/// missing.  `target` and `profile` have defaults and are never missing.
#[derive(Clone, Copy, PartialEq, Eq, Structural, Debug)]
pub enum CompileError {
    MissingSourcePath,
    MissingDestPath,
    MissingShaderStage,
}

/// An incrementally built description of one `slangc` invocation.  The
/// setters perform no validation; `compile` validates the three required
/// fields and produces the argument list.
pub struct SlangCompile {
    pub source_path: Option<String>,
    pub dest_path: Option<String>,
    pub stage: Option<ShaderStage>,
    pub compile_to: Option<ShaderTarget>,
    pub profile: Option<ShaderProfile>,
}

/// The profile flag value for each profile.
pub open spec fn spec_profile_token(p: ShaderProfile) -> Seq<char> {
    match p {
        ShaderProfile::Glsl450 => "glsl_450"@,
    }
}

/// The target flag value for each target.
pub open spec fn spec_target_token(t: ShaderTarget) -> Seq<char> {
    match t {
        ShaderTarget::SpirV => "spirv"@,
        ShaderTarget::Glsl => "glsl"@,
    }
}

/// The entry-stage flag value for each stage.
pub open spec fn spec_stage_token(s: ShaderStage) -> Seq<char> {
    match s {
        ShaderStage::Fragment => "fragment"@,
        ShaderStage::Vertex => "vertex"@,
    }
}

/// The full `slangc` argument list of one job, in the fixed order: source
/// path; profile; target; output path; entry stage; the two user-asset
/// include directories, then the two built-in core include directories;
/// and the flag that names shader stages by entry-point name.
pub open spec fn spec_slang_args(
    source: Seq<char>,
    profile: ShaderProfile,
    target: ShaderTarget,
    dest: Seq<char>,
    stage: ShaderStage,
) -> Seq<Seq<char>> {
    seq![
        source,
        "-profile"@,
        spec_profile_token(profile),
        "-target"@,
        spec_target_token(target),
        "-o"@,
        dest,
        "-entry"@,
        spec_stage_token(stage),
        "-I"@,
        MATH_UTILS_DIR@,
        "-I"@,
        SDF2D_DIR@,
        "-I"@,
        MATH_UTILS_CORE_DIR@,
        "-I"@,
        SDF2D_CORE_DIR@,
        "-fvk-use-entrypoint-name"@,
    ]
}

/// The name of the external shader compiler executable.
pub fn slang_compiler_name() -> (s: &'static str)
    ensures
        s@ == "slangc"@,
{
    "slangc"
}

impl SlangCompile {
    /// A job with nothing configured.
    pub fn new() -> (r: Self)
        ensures
            r.source_path is None,
            r.dest_path is None,
            r.stage is None,
            r.compile_to is None,
            r.profile is None,
    {
        SlangCompile {
            source_path: None,
            dest_path: None,
            stage: None,
            compile_to: None,
            profile: None,
        }
    }

    /// Sets the source path; no validation.
    pub fn with_source(self, source_path: &str) -> (r: Self)
        ensures
            r.source_path is Some && r.source_path->0@ == source_path@,
            r.dest_path == self.dest_path,
            r.stage == self.stage,
            r.compile_to == self.compile_to,
            r.profile == self.profile,
    {
        SlangCompile { source_path: Some(source_path.to_owned()), ..self }
    }

    /// Sets the destination path; no validation.
    pub fn to_destinatino(self, dest_path: &str) -> (r: Self)
        ensures
            r.dest_path is Some && r.dest_path->0@ == dest_path@,
            r.source_path == self.source_path,
            r.stage == self.stage,
            r.compile_to == self.compile_to,
            r.profile == self.profile,
    {
        SlangCompile { dest_path: Some(dest_path.to_owned()), ..self }
    }

    /// Sets the shader stage; no validation.
    pub fn with_stage(self, stage: ShaderStage) -> (r: Self)
        ensures
            r.stage == Some(stage),
            r.source_path == self.source_path,
            r.dest_path == self.dest_path,
            r.compile_to == self.compile_to,
            r.profile == self.profile,
    {
        SlangCompile { stage: Some(stage), ..self }
    }

    /// Sets the output target; no validation.
    pub fn to_target(self, compile_to: ShaderTarget) -> (r: Self)
        ensures
            r.compile_to == Some(compile_to),
            r.source_path == self.source_path,
            r.dest_path == self.dest_path,
            r.stage == self.stage,
            r.profile == self.profile,
    {
        SlangCompile { compile_to: Some(compile_to), ..self }
    }

    /// Sets the compiler profile; no validation.
    pub fn with_profile(self, profile: ShaderProfile) -> (r: Self)
        ensures
            r.profile == Some(profile),
            r.source_path == self.source_path,
            r.dest_path == self.dest_path,
            r.stage == self.stage,
            r.compile_to == self.compile_to,
    {
        SlangCompile { profile: Some(profile), ..self }
    }

    /// Validates the three required fields and produces the `slangc`
    /// argument list.  Missing `source_path` is reported first, then a
    /// missing `dest_path`, then a missing `stage`; `compile_to` defaults
    /// to SpirV and `profile` to Glsl450.
    pub fn compile(&self) -> (r: Result<Vec<String>, CompileError>)
        ensures
            self.source_path is None ==> r == Err::<Vec<String>, CompileError>(
                CompileError::MissingSourcePath,
            ),
            self.source_path is Some && self.dest_path is None ==> r == Err::<
                Vec<String>,
                CompileError,
            >(CompileError::MissingDestPath),
            self.source_path is Some && self.dest_path is Some && self.stage is None ==> r
                == Err::<Vec<String>, CompileError>(CompileError::MissingShaderStage),
            self.source_path is Some && self.dest_path is Some && self.stage is Some ==> r is Ok
                && r->Ok_0.deep_view() == spec_slang_args(
                self.source_path->0@,
                if self.profile is Some {
                    self.profile->0
                } else {
                    ShaderProfile::Glsl450
                },
                if self.compile_to is Some {
                    self.compile_to->0
                } else {
                    ShaderTarget::SpirV
                },
                self.dest_path->0@,
                self.stage->0,
            ),
    {
        let mut args: Vec<String> = Vec::new();

        match &self.source_path {
            Some(source_path) => args.push(source_path.clone()),
            None => {
                return Err(CompileError::MissingSourcePath);
            },
        }

        args.push("-profile".to_owned());
        match self.profile {
            Some(ShaderProfile::Glsl450) => args.push("glsl_450".to_owned()),
            None => args.push("glsl_450".to_owned()),
        }

        args.push("-target".to_owned());
        match self.compile_to {
            Some(ShaderTarget::SpirV) => args.push("spirv".to_owned()),
            Some(ShaderTarget::Glsl) => args.push("glsl".to_owned()),
            None => args.push("spirv".to_owned()),
        }

        match &self.dest_path {
            Some(dest_path) => {
                args.push("-o".to_owned());
                args.push(dest_path.clone());
            },
            None => {
                return Err(CompileError::MissingDestPath);
            },
        }

        match self.stage {
            Some(ShaderStage::Fragment) => {
                args.push("-entry".to_owned());
                args.push("fragment".to_owned());
            },
            Some(ShaderStage::Vertex) => {
                args.push("-entry".to_owned());
                args.push("vertex".to_owned());
            },
            None => {
                return Err(CompileError::MissingShaderStage);
            },
        }

        args.push("-I".to_owned());
        args.push(MATH_UTILS_DIR.to_owned());
        args.push("-I".to_owned());
        args.push(SDF2D_DIR.to_owned());

        args.push("-I".to_owned());
        args.push(MATH_UTILS_CORE_DIR.to_owned());
        args.push("-I".to_owned());
        args.push(SDF2D_CORE_DIR.to_owned());

        args.push("-fvk-use-entrypoint-name".to_owned());

        assert(args.deep_view() =~= spec_slang_args(
            self.source_path->0@,
            if self.profile is Some {
                self.profile->0
            } else {
                ShaderProfile::Glsl450
            },
            if self.compile_to is Some {
                self.compile_to->0
            } else {
                ShaderTarget::SpirV
            },
            self.dest_path->0@,
            self.stage->0,
        ));
        Ok(args)
    }
}

/// The basename the orchestrator derives: the explicit override when one
/// is given, else the source file's name with its extension — the text
/// from its last dot on — stripped.
pub open spec fn spec_shader_basename(path: Seq<char>, shader_name: Option<Seq<char>>) -> Seq<
    char,
> {
    match shader_name {
        Some(name) => name,
        None => spec_before_last_dot(spec_after_last_slash(path)),
    }
}

/// The deterministic destination path of one job: the compiled-shader
/// directory, the basename, and a stage suffix, with `.spv` appended for
/// binary SPIR-V output.
pub open spec fn spec_dest_path(base: Seq<char>, stage: ShaderStage, target: ShaderTarget) -> Seq<
    char,
> {
    let suffix = match (stage, target) {
        (ShaderStage::Fragment, ShaderTarget::SpirV) => ".frag.spv"@,
        (ShaderStage::Vertex, ShaderTarget::SpirV) => ".vert.spv"@,
        (ShaderStage::Fragment, ShaderTarget::Glsl) => ".frag"@,
        (ShaderStage::Vertex, ShaderTarget::Glsl) => ".vert"@,
    };
    COMPILED_SHADERS_DIR@ + "/"@ + base + suffix
}

/// The fixed four-job plan of one generated shader, in execution order:
/// Fragment/SpirV, Vertex/SpirV, Fragment/Glsl, Vertex/Glsl, every job
/// against the same source.
pub open spec fn spec_compile_plan(path: Seq<char>, shader_name: Option<Seq<char>>) -> Seq<
    Seq<Seq<char>>,
> {
    let base = spec_shader_basename(path, shader_name);
    seq![
        spec_slang_args(
            path,
            ShaderProfile::Glsl450,
            ShaderTarget::SpirV,
            spec_dest_path(base, ShaderStage::Fragment, ShaderTarget::SpirV),
            ShaderStage::Fragment,
        ),
        spec_slang_args(
            path,
            ShaderProfile::Glsl450,
            ShaderTarget::SpirV,
            spec_dest_path(base, ShaderStage::Vertex, ShaderTarget::SpirV),
            ShaderStage::Vertex,
        ),
        spec_slang_args(
            path,
            ShaderProfile::Glsl450,
            ShaderTarget::Glsl,
            spec_dest_path(base, ShaderStage::Fragment, ShaderTarget::Glsl),
            ShaderStage::Fragment,
        ),
        spec_slang_args(
            path,
            ShaderProfile::Glsl450,
            ShaderTarget::Glsl,
            spec_dest_path(base, ShaderStage::Vertex, ShaderTarget::Glsl),
            ShaderStage::Vertex,
        ),
    ]
}

fn dest_for(base: &str, suffix: &str) -> (r: String)
    ensures
        r@ == COMPILED_SHADERS_DIR@ + "/"@ + base@ + suffix@,
{
    let mut d = COMPILED_SHADERS_DIR.to_owned();
    d.append("/");
    d.append(base);
    d.append(suffix);
    assert(d@ =~= COMPILED_SHADERS_DIR@ + "/"@ + base@ + suffix@);
    d
}

/// Expands one generated shader into the fixed four-job matrix and
/// returns every job's argument list, in execution order.  Exactly four
/// jobs are always planned; no job's outcome can remove another from the
/// plan.
pub fn compile_shaders(path: &str, shader_name: Option<&str>) -> (jobs: Vec<Vec<String>>)
    ensures
        jobs.deep_view() == spec_compile_plan(
            path@,
            match shader_name {
                Some(n) => Some(n@),
                None => None,
            },
        ),
        jobs.len() == 4,
{
    let file_name: String = match shader_name {
        Some(name) => name.to_owned(),
        None => before_last_dot(after_last_slash(path)).to_owned(),
    };

    let mut jobs: Vec<Vec<String>> = Vec::new();

    let frag_spv = SlangCompile::new().with_source(path).with_stage(
        ShaderStage::Fragment,
    ).to_destinatino(dest_for(file_name.as_str(), ".frag.spv").as_str()).to_target(
        ShaderTarget::SpirV,
    ).compile();
    jobs.push(frag_spv.unwrap());

    let vert_spv = SlangCompile::new().with_source(path).with_stage(
        ShaderStage::Vertex,
    ).to_destinatino(dest_for(file_name.as_str(), ".vert.spv").as_str()).to_target(
        ShaderTarget::SpirV,
    ).compile();
    jobs.push(vert_spv.unwrap());

    let frag_glsl = SlangCompile::new().with_source(path).with_stage(
        ShaderStage::Fragment,
    ).to_destinatino(dest_for(file_name.as_str(), ".frag").as_str()).to_target(
        ShaderTarget::Glsl,
    ).compile();
    jobs.push(frag_glsl.unwrap());

    let vert_glsl = SlangCompile::new().with_source(path).with_stage(
        ShaderStage::Vertex,
    ).to_destinatino(dest_for(file_name.as_str(), ".vert").as_str()).to_target(
        ShaderTarget::Glsl,
    ).compile();
    jobs.push(vert_glsl.unwrap());

    assert(jobs.deep_view() =~= spec_compile_plan(
        path@,
        match shader_name {
            Some(n) => Some(n@),
            None => None,
        },
    ));
    jobs
}

} // verus!
