//! Shader sources made ready for the compiler of the graphics API: the
//! preprocessed text, headed by the lines that the target's GLSL dialect
//! wants first.
//!
//! Preprocessing itself is not done here. The caller brings the
//! preprocessor; this module decides what it is run on and what is put in
//! front of its output.

use std::collections::HashMap;
use std::marker::PhantomData;
use vstd::prelude::*;
use vstd::string::*;

verus! {

/// The stage of the pipeline that a shader is written for.
#[derive(Debug, PartialEq, Eq, Copy, Clone, Structural)]
pub enum ShaderKind {
    Vertex,
    Fragment,
}

/// A type that stands for one shader stage.
pub trait ShaderKindProvider {
    /// The stage that the type stands for.
    spec fn spec_kind() -> ShaderKind;

    /// The stage that the type stands for.
    fn kind() -> (kind: ShaderKind)
        ensures
            kind == Self::spec_kind(),
    ;
}

/// Stands for the vertex stage.
#[derive(Debug)]
pub struct ShaderKindVs {}

impl ShaderKindProvider for ShaderKindVs {
    open spec fn spec_kind() -> ShaderKind {
        ShaderKind::Vertex
    }

    fn kind() -> (kind: ShaderKind) {
        ShaderKind::Vertex
    }
}

/// Stands for the fragment stage.
#[derive(Debug)]
pub struct ShaderKindFs {}

impl ShaderKindProvider for ShaderKindFs {
    open spec fn spec_kind() -> ShaderKind {
        ShaderKind::Fragment
    }

    fn kind() -> (kind: ShaderKind) {
        ShaderKind::Fragment
    }
}

/// The line with which a source asks for GLSL ES 3.00.
pub open spec fn glsl_300es_marker() -> Seq<char> {
    "#define USE_GLSL_300ES"@
}

/// The `#version` line for a source: desktop GL always gets version 150; GL
/// ES gets version 300 es where the source starts with the marker, and no
/// version line otherwise.
pub open spec fn version_line(gl_es: bool, source: Seq<char>) -> Seq<char> {
    if !gl_es {
        "#version 150\n"@
    } else if glsl_300es_marker().is_prefix_of(source) {
        "#version 300 es\n"@
    } else {
        Seq::empty()
    }
}

/// What is put in front of the preprocessed text: the version line and, for
/// a fragment shader on GL ES, the default float precision.
pub open spec fn prefix_of(kind: ShaderKind, gl_es: bool, source: Seq<char>) -> Seq<char> {
    if gl_es && kind == ShaderKind::Fragment {
        version_line(gl_es, source) + "precision highp float;\n"@
    } else {
        version_line(gl_es, source)
    }
}

/// Whether `predefs` are the definitions that the preprocessor starts with:
/// `GL_ES`, defined as nothing, on GL ES and none elsewhere.
pub open spec fn are_predefs(predefs: Seq<(String, String)>, gl_es: bool) -> bool {
    if gl_es {
        predefs.len() == 1 && predefs[0].0@ == "GL_ES"@ && predefs[0].1@ == Seq::<char>::empty()
    } else {
        predefs.len() == 0
    }
}

/// Whether `result` is what preprocessing the source `s` of a shader of the
/// given kind gives on a target that is GL ES or is not: `preprocess` has
/// run on the source, the definitions that the target starts with and the
/// external files; its error is the result's error, and its text, headed by
/// the prefix, is the result's text.
pub open spec fn made_for<E, F>(
    result: Result<PreprocessedShaderCode, E>,
    kind: ShaderKind,
    gl_es: bool,
    s: &str,
    external_files: &HashMap<String, String>,
    preprocess: F,
) -> bool where
    F: FnOnce(&str, &Vec<(String, String)>, &HashMap<String, String>) -> Result<String, E>,
{
    exists|predefs: Vec<(String, String)>, outcome: Result<String, E>|
        {
            &&& are_predefs(predefs@, gl_es)
            &&& #[trigger] call_ensures(preprocess, (s, &predefs, external_files), outcome)
            &&& match outcome {
                Ok(body) => result is Ok && result->Ok_0@ == prefix_of(kind, gl_es, s@) + body@,
                Err(e) => result == Err::<PreprocessedShaderCode, E>(e),
            }
        }
}

/// Reads `uni_gl::IS_GL_ES`: whether the graphics API of the build target is
/// OpenGL ES. Nothing is claimed of the value, which differs between
/// targets.
#[verifier::external_body]
fn is_gl_es() -> (gl_es: bool) {
    uni_gl::IS_GL_ES
}

/// Whether `s` starts with `prefix`.
fn starts_with(s: &str, prefix: &str) -> (yes: bool)
    ensures
        yes == prefix@.is_prefix_of(s@),
{
    let n = prefix.unicode_len();
    if s.unicode_len() < n {
        return false;
    }
    let mut i: usize = 0;
    while i < n
        invariant
            i <= n,
            n == prefix@.len(),
            n <= s@.len(),
            forall|j: int| 0 <= j < i ==> s@[j] == prefix@[j],
        decreases n - i,
    {
        if s.get_char(i) != prefix.get_char(i) {
            return false;
        }
        i += 1;
    }
    assert(prefix@ =~= s@.subrange(0, prefix@.len() as int));
    true
}

/// The text of a shader after preprocessing, ready to be compiled.
#[derive(Debug)]
pub struct PreprocessedShaderCode(String);

impl View for PreprocessedShaderCode {
    type V = Seq<char>;

    closed spec fn view(&self) -> Seq<char> {
        self.0@
    }
}

impl PreprocessedShaderCode {
    /// The text.
    pub fn as_string(&self) -> (text: &String)
        ensures
            text@ == self@,
    {
        &self.0
    }

    /// The definitions that the preprocessor starts with on the given
    /// target.
    fn predefs(gl_es: bool) -> (predefs: Vec<(String, String)>)
        ensures
            are_predefs(predefs@, gl_es),
    {
        let mut predefs: Vec<(String, String)> = Vec::new();
        if gl_es {
            predefs.push(("GL_ES".to_owned(), String::new()));
        }
        predefs
    }

    /// What is put in front of the preprocessed text of `s`.
    fn prefix(kind: ShaderKind, gl_es: bool, s: &str) -> (prefix: String)
        ensures
            prefix@ == prefix_of(kind, gl_es, s@),
    {
        let version = if !gl_es {
            "#version 150\n".to_owned()
        } else if starts_with(s, "#define USE_GLSL_300ES") {
            "#version 300 es\n".to_owned()
        } else {
            String::new()
        };
        match kind {
            ShaderKind::Vertex => version,
            ShaderKind::Fragment => if gl_es {
                version.concat("precision highp float;\n")
            } else {
                version
            },
        }
    }

    /// Preprocesses the source `s` of a shader of the given kind for a
    /// target that is GL ES or is not.
    ///
    /// `preprocess` is called once, with the source, the definitions that
    /// the target starts with and `external_files` as given. If it fails,
    /// so does this function, with its error. If it succeeds, the result is
    /// the prefix for the kind, the target and the source, followed by what
    /// it returned.
    pub fn for_target<E, F>(
        kind: ShaderKind,
        gl_es: bool,
        s: &str,
        external_files: &HashMap<String, String>,
        preprocess: F,
    ) -> (result: Result<PreprocessedShaderCode, E>) where
        F: FnOnce(&str, &Vec<(String, String)>, &HashMap<String, String>) -> Result<String, E>,

        requires
            forall|predefs: Vec<(String, String)>|
                are_predefs(predefs@, gl_es) ==> call_requires(
                    preprocess,
                    (s, &predefs, external_files),
                ),
        ensures
            made_for(result, kind, gl_es, s, external_files, preprocess),
    {
        let prefix = Self::prefix(kind, gl_es, s);
        let predefs = Self::predefs(gl_es);
        let outcome = preprocess(s, &predefs, external_files);
        match outcome {
            Ok(body) => Ok(PreprocessedShaderCode(prefix.concat(body.as_str()))),
            Err(e) => Err(e),
        }
    }

    /// Preprocesses the source `s` of a shader of the given kind for the
    /// target that this library was built for. It does what
    /// [`PreprocessedShaderCode::for_target`] does for that target.
    pub fn new<E, F>(
        kind: ShaderKind,
        s: &str,
        external_files: &HashMap<String, String>,
        preprocess: F,
    ) -> (result: Result<PreprocessedShaderCode, E>) where
        F: FnOnce(&str, &Vec<(String, String)>, &HashMap<String, String>) -> Result<String, E>,

        requires
            forall|gl_es: bool, predefs: Vec<(String, String)>|
                are_predefs(predefs@, gl_es) ==> call_requires(
                    preprocess,
                    (s, &predefs, external_files),
                ),
        ensures
            exists|gl_es: bool| made_for(result, kind, gl_es, s, external_files, preprocess),
    {
        Self::for_target(kind, is_gl_es(), s, external_files, preprocess)
    }
}

/// A shader of the stage that `T` stands for.
#[derive(Debug)]
pub struct Shader<T: ShaderKindProvider> {
    pub code: PreprocessedShaderCode,
    pub filename: String,
    pub phantom: PhantomData<T>,
}

pub type ShaderVs = Shader<ShaderKindVs>;

pub type ShaderFs = Shader<ShaderKindFs>;

impl<T> Shader<T> where T: ShaderKindProvider {
    /// The shader read from `filename` with the source `s`, preprocessed for
    /// the stage that `T` stands for, with no external files. The
    /// preprocessor must accept the source and must not fail on it; a
    /// caller that cannot know this calls [`PreprocessedShaderCode::new`]
    /// and, where that succeeds, [`Shader::from_preprocessed`].
    pub fn new<E, F>(filename: &str, s: &str, preprocess: F) -> (shader: Shader<T>) where
        F: FnOnce(&str, &Vec<(String, String)>, &HashMap<String, String>) -> Result<String, E>,

        requires
            forall|gl_es: bool, predefs: Vec<(String, String)>, files: HashMap<String, String>|
                are_predefs(predefs@, gl_es) && files@ == Map::<String, String>::empty()
                    ==> call_requires(preprocess, (s, &predefs, &files)),
            forall|
                gl_es: bool,
                predefs: Vec<(String, String)>,
                files: HashMap<String, String>,
                outcome: Result<String, E>,
            |
                are_predefs(predefs@, gl_es) && files@ == Map::<String, String>::empty()
                    && call_ensures(preprocess, (s, &predefs, &files), outcome) ==> outcome is Ok,
        ensures
            shader.filename@ == filename@,
            exists|gl_es: bool, files: HashMap<String, String>|
                files@ == Map::<String, String>::empty() && #[trigger] made_for(
                    Ok::<PreprocessedShaderCode, E>(shader.code),
                    T::spec_kind(),
                    gl_es,
                    s,
                    &files,
                    preprocess,
                ),
    {
        let files: HashMap<String, String> = HashMap::new();
        let made = PreprocessedShaderCode::new(T::kind(), s, &files, preprocess);
        match made {
            Ok(code) => {
                let ghost made_code = code;
                let shader = Shader { filename: filename.to_owned(), code, phantom: PhantomData };
                proof {
                    let gl_es = choose|gl_es: bool|
                        made_for(
                            Ok::<PreprocessedShaderCode, E>(made_code),
                            T::spec_kind(),
                            gl_es,
                            s,
                            &files,
                            preprocess,
                        );
                    assert(shader.code == made_code);
                    assert(files@ == Map::<String, String>::empty());
                    assert(made_for(
                        Ok::<PreprocessedShaderCode, E>(shader.code),
                        T::spec_kind(),
                        gl_es,
                        s,
                        &files,
                        preprocess,
                    ));
                }
                shader
            },
            Err(_) => vstd::pervasive::unreached(),
        }
    }

    /// The shader read from `filename` whose preprocessed text is `code`.
    pub fn from_preprocessed(filename: &str, code: PreprocessedShaderCode) -> (shader: Shader<T>)
        ensures
            shader.filename@ == filename@,
            shader.code == code,
    {
        Shader { filename: filename.to_owned(), code, phantom: PhantomData }
    }
}

} // verus!
