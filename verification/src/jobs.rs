//! Translation of a validated configuration into engine build jobs.
//!
//! Each enabled engine gets one `EngineJob`: the argument list for the build
//! tool and the environment overrides for that one child process. The two
//! engines write to dedicated target directories (`target/afl`,
//! `target/honggfuzz`) so their artifacts never collide. Sanitizer builds
//! exist only on the AFL-class path and switch to an ASAN-capable target
//! triple with a from-source standard-library rebuild, appending the
//! sanitizer flag and the resolved optimization flag to both the compiler
//! and the documentation-compiler flag variables.

use vstd::prelude::*;

use crate::config::{BuildConfig, EngineKind};
use crate::config::valid_config;
use crate::decimal::{decimal_digits, decimal_string};

verus! {

/// The ambient environment the orchestrator consults, captured as plain
/// values by the caller: an override for the build tool executable, and the
/// externally supplied compiler / documentation-compiler flags.
#[derive(Debug)]
pub struct ExternalEnv {
    pub build_tool_override: Option<String>,
    pub compiler_flags: Option<String>,
    pub doc_compiler_flags: Option<String>,
}

/// One engine build: the tool's arguments, in order, and the environment
/// overrides applied to that single child process (the parent environment is
/// never mutated).
#[derive(Clone, Debug)]
pub struct EngineJob {
    pub engine: EngineKind,
    pub tool_arguments: Vec<String>,
    pub environment_overrides: Vec<(String, String)>,
}

/// The views of a vector of strings.
pub open spec fn strings_view(v: Seq<String>) -> Seq<Seq<char>> {
    v.map_values(|s: String| s@)
}

/// The views of a vector of string pairs.
pub open spec fn pairs_view(v: Seq<(String, String)>) -> Seq<(Seq<char>, Seq<char>)> {
    v.map_values(|p: (String, String)| (p.0@, p.1@))
}

/// The characters of an optional string, empty when absent.
pub open spec fn opt_chars(o: Option<String>) -> Seq<char> {
    match o {
        Some(s) => s@,
        None => Seq::<char>::empty(),
    }
}

/// The executable the build tools are launched through: the caller-supplied
/// override when present, else the default driver.
pub open spec fn spec_tool_program(ext: ExternalEnv) -> Seq<char> {
    match ext.build_tool_override {
        Some(s) => s@,
        None => "cargo"@,
    }
}

/// Executable form of [`spec_tool_program`].
pub fn tool_program(ext: &ExternalEnv) -> (p: String)
    ensures
        p@ == spec_tool_program(*ext),
{
    match &ext.build_tool_override {
        Some(s) => s.clone(),
        None => String::from_str("cargo"),
    }
}

/// A compiler-flags value for a sanitizer build: the externally supplied
/// flags, then the sanitizer instrumentation flag, then the resolved
/// optimization flag.
pub open spec fn sanitizer_flag_value(existing: Seq<char>, level: nat) -> Seq<char> {
    existing + " -Zsanitizer=address -Copt-level="@ + decimal_digits(level)
}

/// Builds the flag string [`sanitizer_flag_value`] describes.
fn sanitizer_flags(existing: &Option<String>, level: u32) -> (s: String)
    ensures
        s@ == sanitizer_flag_value(opt_chars(*existing), level as nat),
{
    let mut s: String = match existing {
        Some(e) => e.clone(),
        None => String::new(),
    };
    s.append(" -Zsanitizer=address -Copt-level=");
    let digits = decimal_string(level);
    s.append(digits.as_str());
    proof {
        assert(s@ =~= sanitizer_flag_value(opt_chars(*existing), level as nat));
    }
    s
}

/// The AFL-class build tool's arguments: a build of the harness with its
/// AFL feature into the engine's own target directory; the release flag when
/// requested; and, for sanitizer builds, the ASAN-capable target triple and
/// the from-source standard-library rebuild.
pub open spec fn afl_arguments(c: BuildConfig) -> Seq<Seq<char>> {
    let base = seq![
        "afl"@,
        "build"@,
        "--features"@,
        "afl"@,
        "--target-dir"@,
        "target/afl"@,
    ];
    let with_release = if c.release_mode {
        base.push("--release"@)
    } else {
        base
    };
    if c.address_sanitizer {
        with_release + seq!["--target"@, "x86_64-unknown-linux-gnu"@, "-Zbuild-std"@]
    } else {
        with_release
    }
}

/// The AFL-class child environment: for sanitizer builds, the augmented
/// compiler and documentation-compiler flags; then the engine's quiet flag,
/// the resolved optimization level in the engine's own variable, the
/// comparison-log instrumentation flag, and — for sanitizer builds — the
/// flag requiring the engine's plugin-based instrumentation.
pub open spec fn afl_environment(c: BuildConfig, ext: ExternalEnv) -> Seq<(Seq<char>, Seq<char>)> {
    let level = c.spec_effective_opt_level() as nat;
    let sanitizer = if c.address_sanitizer {
        seq![
            ("RUSTFLAGS"@, sanitizer_flag_value(opt_chars(ext.compiler_flags), level)),
            ("RUSTDOCFLAGS"@, sanitizer_flag_value(opt_chars(ext.doc_compiler_flags), level)),
        ]
    } else {
        Seq::<(Seq<char>, Seq<char>)>::empty()
    };
    let common = seq![
        ("AFL_QUIET"@, "1"@),
        ("AFL_OPT_LEVEL"@, decimal_digits(level)),
        ("AFL_LLVM_CMPLOG"@, "1"@),
    ];
    let plugins = if c.address_sanitizer {
        seq![("AFL_USE_PLUGINS"@, "1"@)]
    } else {
        Seq::<(Seq<char>, Seq<char>)>::empty()
    };
    sanitizer + common + plugins
}

/// The Honggfuzz-class build tool's arguments: a plain build, plus the
/// release flag when requested. Sanitizer mode never reaches this path:
/// validation rejects it together with this engine.
pub open spec fn honggfuzz_arguments(c: BuildConfig) -> Seq<Seq<char>> {
    let base = seq!["hfuzz"@, "build"@];
    if c.release_mode {
        base.push("--release"@)
    } else {
        base
    }
}

/// The Honggfuzz-class child environment: the engine's dedicated output
/// directory, the build arguments passed through to the compiler to enable
/// the harness's Honggfuzz feature, and the externally supplied compiler
/// flags propagated unchanged when present.
pub open spec fn honggfuzz_environment(c: BuildConfig, ext: ExternalEnv) -> Seq<
    (Seq<char>, Seq<char>),
> {
    let base = seq![
        ("CARGO_TARGET_DIR"@, "target/honggfuzz"@),
        ("HFUZZ_BUILD_ARGS"@, "--features honggfuzz"@),
    ];
    match ext.compiler_flags {
        Some(f) => base.push(("RUSTFLAGS"@, f@)),
        None => base,
    }
}

/// The environment overrides of an AFL-class job form a mapping: no variable
/// name is set twice for the same child process.
pub proof fn lemma_afl_environment_keys_distinct(c: BuildConfig, ext: ExternalEnv)
    ensures
        forall|i: int, j: int|
            0 <= i < j < afl_environment(c, ext).len() ==> #[trigger] afl_environment(c, ext)[i].0
                != #[trigger] afl_environment(c, ext)[j].0,
{
    reveal_strlit("RUSTFLAGS");
    reveal_strlit("RUSTDOCFLAGS");
    reveal_strlit("AFL_QUIET");
    reveal_strlit("AFL_OPT_LEVEL");
    reveal_strlit("AFL_LLVM_CMPLOG");
    reveal_strlit("AFL_USE_PLUGINS");
    assert("RUSTFLAGS"@.len() == 9 && "RUSTFLAGS"@[0] == 'R');
    assert("RUSTDOCFLAGS"@.len() == 12);
    assert("AFL_QUIET"@.len() == 9 && "AFL_QUIET"@[0] == 'A');
    assert("AFL_OPT_LEVEL"@.len() == 13);
    assert("AFL_LLVM_CMPLOG"@.len() == 15 && "AFL_LLVM_CMPLOG"@[4] == 'L');
    assert("AFL_USE_PLUGINS"@.len() == 15 && "AFL_USE_PLUGINS"@[4] == 'U');
    let e = afl_environment(c, ext);
    assert forall|i: int, j: int| 0 <= i < j < e.len() implies e[i].0 != e[j].0 by {
        assert("RUSTFLAGS"@ != "RUSTDOCFLAGS"@);
        assert("RUSTFLAGS"@ != "AFL_QUIET"@);
        assert("RUSTFLAGS"@ != "AFL_OPT_LEVEL"@);
        assert("RUSTFLAGS"@ != "AFL_LLVM_CMPLOG"@);
        assert("RUSTFLAGS"@ != "AFL_USE_PLUGINS"@);
        assert("RUSTDOCFLAGS"@ != "AFL_QUIET"@);
        assert("RUSTDOCFLAGS"@ != "AFL_OPT_LEVEL"@);
        assert("RUSTDOCFLAGS"@ != "AFL_LLVM_CMPLOG"@);
        assert("RUSTDOCFLAGS"@ != "AFL_USE_PLUGINS"@);
        assert("AFL_QUIET"@ != "AFL_OPT_LEVEL"@);
        assert("AFL_QUIET"@ != "AFL_LLVM_CMPLOG"@);
        assert("AFL_QUIET"@ != "AFL_USE_PLUGINS"@);
        assert("AFL_OPT_LEVEL"@ != "AFL_LLVM_CMPLOG"@);
        assert("AFL_OPT_LEVEL"@ != "AFL_USE_PLUGINS"@);
        assert("AFL_LLVM_CMPLOG"@ != "AFL_USE_PLUGINS"@);
        if c.address_sanitizer {
            assert(e[0].0 == "RUSTFLAGS"@);
            assert(e[1].0 == "RUSTDOCFLAGS"@);
            assert(e[2].0 == "AFL_QUIET"@);
            assert(e[3].0 == "AFL_OPT_LEVEL"@);
            assert(e[4].0 == "AFL_LLVM_CMPLOG"@);
            assert(e[5].0 == "AFL_USE_PLUGINS"@);
        } else {
            assert(e[0].0 == "AFL_QUIET"@);
            assert(e[1].0 == "AFL_OPT_LEVEL"@);
            assert(e[2].0 == "AFL_LLVM_CMPLOG"@);
        }
    }
}

/// The environment overrides of a Honggfuzz-class job form a mapping: no
/// variable name is set twice for the same child process.
pub proof fn lemma_honggfuzz_environment_keys_distinct(c: BuildConfig, ext: ExternalEnv)
    ensures
        forall|i: int, j: int|
            0 <= i < j < honggfuzz_environment(c, ext).len() ==> #[trigger] honggfuzz_environment(
                c,
                ext,
            )[i].0 != #[trigger] honggfuzz_environment(c, ext)[j].0,
{
    reveal_strlit("CARGO_TARGET_DIR");
    reveal_strlit("HFUZZ_BUILD_ARGS");
    reveal_strlit("RUSTFLAGS");
    assert("CARGO_TARGET_DIR"@.len() == 16 && "CARGO_TARGET_DIR"@[0] == 'C');
    assert("HFUZZ_BUILD_ARGS"@.len() == 16 && "HFUZZ_BUILD_ARGS"@[0] == 'H');
    assert("RUSTFLAGS"@.len() == 9);
    let e = honggfuzz_environment(c, ext);
    assert forall|i: int, j: int| 0 <= i < j < e.len() implies e[i].0 != e[j].0 by {
        assert("CARGO_TARGET_DIR"@ != "HFUZZ_BUILD_ARGS"@);
        assert("CARGO_TARGET_DIR"@ != "RUSTFLAGS"@);
        assert("HFUZZ_BUILD_ARGS"@ != "RUSTFLAGS"@);
        assert(e[0].0 == "CARGO_TARGET_DIR"@);
        assert(e[1].0 == "HFUZZ_BUILD_ARGS"@);
        if ext.compiler_flags is Some {
            assert(e[2].0 == "RUSTFLAGS"@);
        }
    }
}

/// The job a given engine runs under a validated configuration.
pub open spec fn job_matches(j: EngineJob, c: BuildConfig, ext: ExternalEnv) -> bool {
    match j.engine {
        EngineKind::Afl => {
            &&& strings_view(j.tool_arguments@) == afl_arguments(c)
            &&& pairs_view(j.environment_overrides@) == afl_environment(c, ext)
        },
        EngineKind::Honggfuzz => {
            &&& strings_view(j.tool_arguments@) == honggfuzz_arguments(c)
            &&& pairs_view(j.environment_overrides@) == honggfuzz_environment(c, ext)
        },
    }
}

/// Assembles the AFL-class engine's job, exactly as [`afl_arguments`] and
/// [`afl_environment`] prescribe.
pub fn afl_job(c: &BuildConfig, ext: &ExternalEnv) -> (j: EngineJob)
    requires
        valid_config(*c),
        c.afl_enabled,
    ensures
        j.engine == EngineKind::Afl,
        job_matches(j, *c, *ext),
{
    let mut args: Vec<String> = Vec::new();
    args.push(String::from_str("afl"));
    args.push(String::from_str("build"));
    args.push(String::from_str("--features"));
    args.push(String::from_str("afl"));
    args.push(String::from_str("--target-dir"));
    args.push(String::from_str("target/afl"));
    if c.release_mode {
        args.push(String::from_str("--release"));
    }
    if c.address_sanitizer {
        args.push(String::from_str("--target"));
        args.push(String::from_str("x86_64-unknown-linux-gnu"));
        args.push(String::from_str("-Zbuild-std"));
    }
    let level = c.effective_opt_level();
    let mut env: Vec<(String, String)> = Vec::new();
    if c.address_sanitizer {
        env.push((String::from_str("RUSTFLAGS"), sanitizer_flags(&ext.compiler_flags, level)));
        env.push(
            (String::from_str("RUSTDOCFLAGS"), sanitizer_flags(&ext.doc_compiler_flags, level)),
        );
    }
    env.push((String::from_str("AFL_QUIET"), String::from_str("1")));
    env.push((String::from_str("AFL_OPT_LEVEL"), decimal_string(level)));
    env.push((String::from_str("AFL_LLVM_CMPLOG"), String::from_str("1")));
    if c.address_sanitizer {
        env.push((String::from_str("AFL_USE_PLUGINS"), String::from_str("1")));
    }
    proof {
        assert(strings_view(args@) =~= afl_arguments(*c));
        assert(pairs_view(env@) =~= afl_environment(*c, *ext));
    }
    EngineJob { engine: EngineKind::Afl, tool_arguments: args, environment_overrides: env }
}

/// Assembles the Honggfuzz-class engine's job, exactly as
/// [`honggfuzz_arguments`] and [`honggfuzz_environment`] prescribe.
pub fn honggfuzz_job(c: &BuildConfig, ext: &ExternalEnv) -> (j: EngineJob)
    requires
        valid_config(*c),
        c.honggfuzz_enabled,
    ensures
        j.engine == EngineKind::Honggfuzz,
        job_matches(j, *c, *ext),
{
    let mut args: Vec<String> = Vec::new();
    args.push(String::from_str("hfuzz"));
    args.push(String::from_str("build"));
    if c.release_mode {
        args.push(String::from_str("--release"));
    }
    let mut env: Vec<(String, String)> = Vec::new();
    env.push((String::from_str("CARGO_TARGET_DIR"), String::from_str("target/honggfuzz")));
    env.push((String::from_str("HFUZZ_BUILD_ARGS"), String::from_str("--features honggfuzz")));
    match &ext.compiler_flags {
        Some(f) => {
            env.push((String::from_str("RUSTFLAGS"), f.clone()));
        },
        None => {},
    }
    proof {
        assert(strings_view(args@) =~= honggfuzz_arguments(*c));
        assert(pairs_view(env@) =~= honggfuzz_environment(*c, *ext));
    }
    EngineJob { engine: EngineKind::Honggfuzz, tool_arguments: args, environment_overrides: env }
}

} // verus!
