//! Parsing of the `--engine` hint.
//!
//! Which names a build accepts depends on the engines linked into it, so every
//! function here takes them as a [`Kit`].

use crate::engine::InferenceFramework;
use crate::engine::ModelCategory;
use crate::text;
use vstd::prelude::*;

verus! {

/// The engines linked into a build beyond the ones every build has.
#[derive(Clone, Copy, Debug, PartialEq, Eq, Structural)]
pub struct Kit {
    pub neurt: bool,
    pub qhexrt: bool,
}

/// How a model reference is narrowed to one backend.
#[derive(Clone, Copy, Debug, PartialEq, Eq, Structural)]
pub struct ResolveOptions {
    pub has_framework: bool,
    pub framework: InferenceFramework,
    pub has_category: bool,
    pub category: ModelCategory,
}

/// Options that narrow nothing.
pub open spec fn no_options() -> ResolveOptions {
    ResolveOptions {
        has_framework: false,
        framework: InferenceFramework::Unspecified,
        has_category: false,
        category: ModelCategory::Unspecified,
    }
}

impl Default for ResolveOptions {
    fn default() -> (r: ResolveOptions)
        ensures
            r == no_options(),
    {
        ResolveOptions {
            has_framework: false,
            framework: InferenceFramework::Unspecified,
            has_category: false,
            category: ModelCategory::Unspecified,
        }
    }
}

/// An engine hint and what it means for resolving a model reference.
#[derive(Clone, Copy, Debug, PartialEq, Eq, Structural)]
pub struct EngineHintResolution {
    pub framework: InferenceFramework,
    pub resolve_options: ResolveOptions,
}

impl Default for EngineHintResolution {
    fn default() -> (r: EngineHintResolution)
        ensures
            r.framework == InferenceFramework::Unspecified,
            r.resolve_options == no_options(),
    {
        EngineHintResolution {
            framework: InferenceFramework::Unspecified,
            resolve_options: ResolveOptions::default(),
        }
    }
}

/// What a framework means for resolving a model reference: one that is named
/// narrows the reference, and none leaves it to the catalog.
pub open spec fn resolution(f: InferenceFramework) -> EngineHintResolution {
    EngineHintResolution {
        framework: f,
        resolve_options: ResolveOptions {
            has_framework: f != InferenceFramework::Unspecified,
            framework: f,
            has_category: false,
            category: ModelCategory::Unspecified,
        },
    }
}

/// A resolution that is narrowed to models of one category, too.
pub open spec fn of_category(hint: EngineHintResolution, category: ModelCategory) -> EngineHintResolution {
    EngineHintResolution {
        framework: hint.framework,
        resolve_options: ResolveOptions {
            has_framework: hint.resolve_options.has_framework,
            framework: hint.resolve_options.framework,
            has_category: true,
            category,
        },
    }
}

impl EngineHintResolution {
    /// See [`of_category`].
    pub fn for_category(self, category: ModelCategory) -> (r: EngineHintResolution)
        ensures
            r == of_category(self, category),
    {
        let mut hint = self;
        hint.resolve_options.has_category = true;
        hint.resolve_options.category = category;
        hint
    }
}

/// A character with an ASCII capital made small.
pub open spec fn lower(c: char) -> char {
    if 'A' <= c && c <= 'Z' {
        (c as int + 32) as char
    } else {
        c
    }
}

/// A string with its ASCII capitals made small.
pub open spec fn lowered(s: Seq<char>) -> Seq<char> {
    Seq::new(s.len(), |i: int| lower(s[i]))
}

fn lower_exec(c: char) -> (r: char)
    ensures
        r == lower(c),
{
    if 'A' <= c && c <= 'Z' {
        let code: u8 = c as u8;
        (code + 32) as char
    } else {
        c
    }
}

/// Executable [`lowered`].
pub fn to_ascii_lowercase(s: &str) -> (r: String)
    ensures
        r@ == lowered(s@),
{
    let v = text::chars_of(s);
    let mut r = String::new();
    let mut i: usize = 0;
    while i < v.len()
        invariant
            i <= v@.len(),
            v@ == s@,
            r@ == lowered(s@).take(i as int),
        decreases v@.len() - i,
    {
        r.push(lower_exec(v[i]));
        i = i + 1;
        assert(r@ =~= lowered(s@).take(i as int));
    }
    assert(r@ =~= lowered(s@));
    r
}

/// The names of the Apple engine: its own, its former name, and the name of
/// the framework it implements.
pub open spec fn is_neurt_name(n: Seq<char>) -> bool {
    n == "neurt"@ || n == "coreml"@ || n == "core-ml"@ || n == "ane"@
}

pub open spec fn is_llamacpp_name(n: Seq<char>) -> bool {
    n == "llamacpp"@ || n == "llama.cpp"@ || n == "llama_cpp"@ || n == "llama-cpp"@
}

pub open spec fn is_qhexrt_name(n: Seq<char>) -> bool {
    n == "qhexrt"@ || n == "qnn"@ || n == "npu"@ || n == "hexagon"@ || n == "hexagon-npu"@
}

/// The framework an engine name stands for, whatever its capitals; no name at
/// all stands for none in particular.
pub open spec fn named_framework(engine: Seq<char>) -> Option<InferenceFramework> {
    let n = lowered(engine);
    if n.len() == 0 {
        Some(InferenceFramework::Unspecified)
    } else if n == "mlx"@ {
        Some(InferenceFramework::Mlx)
    } else if is_neurt_name(n) {
        Some(InferenceFramework::Coreml)
    } else if is_llamacpp_name(n) {
        Some(InferenceFramework::LlamaCpp)
    } else if n == "onnx"@ {
        Some(InferenceFramework::Onnx)
    } else if n == "sherpa"@ {
        Some(InferenceFramework::Sherpa)
    } else if is_qhexrt_name(n) {
        Some(InferenceFramework::Qhexrt)
    } else {
        None
    }
}

/// What an engine name comes to in a build. The Apple engine is refused up
/// front where it is not linked, rather than letting the load fall through to
/// another engine and fail there.
pub open spec fn engine_hint(engine: Seq<char>, kit: Kit) -> Result<InferenceFramework, Seq<char>> {
    match named_framework(engine) {
        Some(f) => if f == InferenceFramework::Coreml && !kit.neurt {
            Err("engine '"@ + engine + "' (Apple Neural Engine) is not in this build"@)
        } else {
            Ok(f)
        },
        None => Err("unsupported engine '"@ + engine + "'"@),
    }
}

/// A result whose error is text, as a value.
pub open spec fn hint_view<T>(r: Result<T, String>) -> Result<T, Seq<char>> {
    match r {
        Ok(v) => Ok(v),
        Err(e) => Err(e@),
    }
}

/// The framework that an `--engine` value names.
pub fn parse_engine_hint(engine: &str, kit: Kit) -> (r: Result<InferenceFramework, String>)
    ensures
        hint_view(r) == engine_hint(engine@, kit),
{
    let normalized = to_ascii_lowercase(engine);
    let n = normalized.as_str();
    proof {
        reveal_strlit("mlx");
        reveal_strlit("neurt");
        reveal_strlit("coreml");
        reveal_strlit("core-ml");
        reveal_strlit("ane");
    }
    if n.is_empty() {
        return Ok(InferenceFramework::Unspecified);
    }
    if text::str_eq(n, "mlx") {
        return Ok(InferenceFramework::Mlx);
    }
    if text::str_eq(n, "neurt") || text::str_eq(n, "coreml") || text::str_eq(n, "core-ml") || text::str_eq(n, "ane") {
        if kit.neurt {
            return Ok(InferenceFramework::Coreml);
        }
        return Err(text::cat3("engine '", engine, "' (Apple Neural Engine) is not in this build"));
    }
    if text::str_eq(n, "llamacpp") || text::str_eq(n, "llama.cpp") || text::str_eq(n, "llama_cpp") || text::str_eq(
        n,
        "llama-cpp",
    ) {
        return Ok(InferenceFramework::LlamaCpp);
    }
    if text::str_eq(n, "onnx") {
        return Ok(InferenceFramework::Onnx);
    }
    if text::str_eq(n, "sherpa") {
        return Ok(InferenceFramework::Sherpa);
    }
    if text::str_eq(n, "qhexrt") || text::str_eq(n, "qnn") || text::str_eq(n, "npu") || text::str_eq(n, "hexagon")
        || text::str_eq(n, "hexagon-npu") {
        return Ok(InferenceFramework::Qhexrt);
    }
    Err(text::cat3("unsupported engine '", engine, "'"))
}

/// An engine is known by its names, however they are cased, and each name is that
/// of one engine; no name leaves the choice open, and anything else is refused. The
/// Neural Engine's is refused by a build that has none of it.
pub proof fn an_engine_is_known_by_its_names(engine: Seq<char>, kit: Kit)
    ensures
        engine.len() == 0 ==> engine_hint(engine, kit) == Ok::<InferenceFramework, Seq<char>>(
            InferenceFramework::Unspecified,
        ),
        lowered(engine) == "mlx"@ ==> engine_hint(engine, kit) == Ok::<InferenceFramework, Seq<char>>(
            InferenceFramework::Mlx,
        ),
        lowered(engine) == "onnx"@ ==> engine_hint(engine, kit) == Ok::<InferenceFramework, Seq<char>>(
            InferenceFramework::Onnx,
        ),
        lowered(engine) == "sherpa"@ ==> engine_hint(engine, kit) == Ok::<InferenceFramework, Seq<char>>(
            InferenceFramework::Sherpa,
        ),
        lowered(engine) == "llamacpp"@ || lowered(engine) == "llama.cpp"@ || lowered(engine) == "llama_cpp"@ || lowered(
            engine,
        ) == "llama-cpp"@ ==> engine_hint(engine, kit) == Ok::<InferenceFramework, Seq<char>>(
            InferenceFramework::LlamaCpp,
        ),
        lowered(engine) == "qhexrt"@ || lowered(engine) == "qnn"@ || lowered(engine) == "npu"@ || lowered(engine)
            == "hexagon"@ || lowered(engine) == "hexagon-npu"@ ==> engine_hint(engine, kit) == Ok::<
            InferenceFramework,
            Seq<char>,
        >(InferenceFramework::Qhexrt),
        lowered(engine) == "neurt"@ || lowered(engine) == "coreml"@ || lowered(engine) == "core-ml"@ || lowered(engine)
            == "ane"@ ==> (kit.neurt ==> engine_hint(engine, kit) == Ok::<InferenceFramework, Seq<char>>(
            InferenceFramework::Coreml,
        )) && (!kit.neurt ==> engine_hint(engine, kit) is Err),
        engine_hint(engine, kit) is Ok ==> {
            let f = engine_hint(engine, kit)->Ok_0;
            &&& f == InferenceFramework::Unspecified || f == InferenceFramework::Mlx || f == InferenceFramework::Coreml
                || f == InferenceFramework::LlamaCpp || f == InferenceFramework::Onnx || f == InferenceFramework::Sherpa
                || f == InferenceFramework::Qhexrt
            &&& f == InferenceFramework::Unspecified <==> engine.len() == 0
        },
{
    reveal_strlit("mlx");
    reveal_strlit("onnx");
    reveal_strlit("sherpa");
    reveal_strlit("llamacpp");
    reveal_strlit("llama.cpp");
    reveal_strlit("llama_cpp");
    reveal_strlit("llama-cpp");
    reveal_strlit("qhexrt");
    reveal_strlit("qnn");
    reveal_strlit("npu");
    reveal_strlit("hexagon");
    reveal_strlit("hexagon-npu");
    reveal_strlit("neurt");
    reveal_strlit("coreml");
    reveal_strlit("core-ml");
    reveal_strlit("ane");
    let n = lowered(engine);
    assert("mlx"@[0] == 'm' && "onnx"@[0] == 'o' && "sherpa"@[0] == 's' && "qhexrt"@[0] == 'q' && "qnn"@[0] == 'q');
    assert("npu"@[0] == 'n' && "npu"@.len() == 3 && "neurt"@[0] == 'n' && "neurt"@.len() == 5);
    assert("hexagon"@[0] == 'h' && "hexagon-npu"@[0] == 'h' && "coreml"@[0] == 'c' && "core-ml"@[0] == 'c');
    assert("ane"@[0] == 'a' && "llamacpp"@[0] == 'l' && "llama.cpp"@[0] == 'l' && "llama_cpp"@[0] == 'l'
        && "llama-cpp"@[0] == 'l');
}

/// A hint is kept as it is where a category is added to it; no engine is hinted at
/// by one that was left open.
pub proof fn a_hint_keeps_its_engine(f: InferenceFramework, category: ModelCategory)
    ensures
        resolution(f).framework == f,
        resolution(f).resolve_options.framework == f,
        resolution(f).resolve_options.has_framework <==> f != InferenceFramework::Unspecified,
        !resolution(f).resolve_options.has_category,
        of_category(resolution(f), category).framework == f,
        of_category(resolution(f), category).resolve_options.framework == f,
        of_category(resolution(f), category).resolve_options.has_framework <==> f != InferenceFramework::Unspecified,
        of_category(resolution(f), category).resolve_options.has_category,
        of_category(resolution(f), category).resolve_options.category == category,
{
}

/// Lowering a letter changes that letter alone: a capital becomes
/// the small one, and everything else stays.
pub proof fn only_letters_are_lowered(s: Seq<char>)
    ensures
        lowered(s).len() == s.len(),
        forall|i: int|
            0 <= i < s.len() ==> if 'A' <= #[trigger] s[i] && s[i] <= 'Z' {
                lowered(s)[i] as int == s[i] as int + 32
            } else {
                lowered(s)[i] == s[i]
            },
        lowered(lowered(s)) == lowered(s),
{
    assert(lowered(lowered(s)) =~= lowered(s));
}

/// The `--engine` values a build accepts, as its help lists them.
pub open spec fn choices_text(kit: Kit) -> Seq<char> {
    if kit.neurt && kit.qhexrt {
        "neurt|coreml|ane, mlx, llamacpp, onnx, sherpa, qhexrt"@
    } else if kit.neurt {
        "neurt|coreml|ane, mlx, llamacpp, onnx, sherpa"@
    } else if kit.qhexrt {
        "mlx, llamacpp, onnx, sherpa, qhexrt"@
    } else {
        "mlx, llamacpp, onnx, sherpa"@
    }
}

/// See [`choices_text`].
pub fn engine_choices(kit: Kit) -> (r: &'static str)
    ensures
        r@ == choices_text(kit),
{
    if kit.neurt && kit.qhexrt {
        "neurt|coreml|ane, mlx, llamacpp, onnx, sherpa, qhexrt"
    } else if kit.neurt {
        "neurt|coreml|ane, mlx, llamacpp, onnx, sherpa"
    } else if kit.qhexrt {
        "mlx, llamacpp, onnx, sherpa, qhexrt"
    } else {
        "mlx, llamacpp, onnx, sherpa"
    }
}

/// An engine hint as options for resolving a model reference: a named engine
/// narrows the reference, no engine leaves it to the catalog.
pub fn resolve_engine_hint(engine: &str, kit: Kit) -> (r: Result<EngineHintResolution, String>)
    ensures
        match engine_hint(engine@, kit) {
            Ok(f) => r == Ok::<EngineHintResolution, String>(resolution(f)),
            Err(message) => r is Err && r->Err_0@ == message,
        },
{
    match parse_engine_hint(engine, kit) {
        Err(e) => Err(e),
        Ok(framework) => {
            let mut resolution = EngineHintResolution { framework, resolve_options: ResolveOptions::default() };
            if framework != InferenceFramework::Unspecified {
                resolution.resolve_options.has_framework = true;
                resolution.resolve_options.framework = framework;
            }
            Ok(resolution)
        },
    }
}

} // verus!
