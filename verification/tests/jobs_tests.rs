use fuzzmux::config::{BuildConfig, EngineKind};
use fuzzmux::decimal::{decimal_string, parse_decimal};
use fuzzmux::jobs::{afl_job, honggfuzz_job, tool_program, ExternalEnv};

fn chars(s: &str) -> Vec<char> {
    s.chars().collect()
}

fn no_external_env() -> ExternalEnv {
    ExternalEnv { build_tool_override: None, compiler_flags: None, doc_compiler_flags: None }
}

fn pairs(v: &[(String, String)]) -> Vec<(&str, &str)> {
    v.iter().map(|p| (p.0.as_str(), p.1.as_str())).collect()
}

#[test]
fn decimal_string_renders_exact_digits() {
    assert_eq!(decimal_string(0), "0");
    assert_eq!(decimal_string(3), "3");
    assert_eq!(decimal_string(42), "42");
    assert_eq!(decimal_string(1000), "1000");
    assert_eq!(decimal_string(u32::MAX), "4294967295");
}

#[test]
fn parse_decimal_accepts_digit_strings() {
    assert_eq!(parse_decimal(&chars("0")), Some(0));
    assert_eq!(parse_decimal(&chars("3")), Some(3));
    assert_eq!(parse_decimal(&chars("42")), Some(42));
    assert_eq!(parse_decimal(&chars("007")), Some(7));
    assert_eq!(parse_decimal(&chars("4294967295")), Some(u32::MAX));
}

#[test]
fn parse_decimal_rejects_empty_junk_and_overflow() {
    assert_eq!(parse_decimal(&chars("")), None);
    assert_eq!(parse_decimal(&chars("1a")), None);
    assert_eq!(parse_decimal(&chars("-1")), None);
    assert_eq!(parse_decimal(&chars(" 1")), None);
    assert_eq!(parse_decimal(&chars("4294967296")), None);
}

#[test]
fn rendering_then_parsing_gives_the_number_back() {
    for n in [0, 1, 9, 10, 42, 999, 1000, u32::MAX] {
        let rendered = decimal_string(n);
        assert_eq!(parse_decimal(&rendered.chars().collect()), Some(n));
    }
}

#[test]
fn tool_program_defaults_to_cargo_and_honors_the_override() {
    assert_eq!(tool_program(&no_external_env()), "cargo");
    let ext = ExternalEnv {
        build_tool_override: Some("cargo-nightly".to_string()),
        compiler_flags: None,
        doc_compiler_flags: None,
    };
    assert_eq!(tool_program(&ext), "cargo-nightly");
}

#[test]
fn afl_job_base_arguments_and_environment() {
    let c = BuildConfig::from_flags(false, true, false, false, None);
    let j = afl_job(&c, &no_external_env());
    assert_eq!(j.engine, EngineKind::Afl);
    assert_eq!(
        j.tool_arguments,
        vec!["afl", "build", "--features", "afl", "--target-dir", "target/afl"]
    );
    assert_eq!(
        pairs(&j.environment_overrides),
        vec![("AFL_QUIET", "1"), ("AFL_OPT_LEVEL", "0"), ("AFL_LLVM_CMPLOG", "1")]
    );
}

#[test]
fn afl_job_release_appends_the_release_flag() {
    let c = BuildConfig::from_flags(false, true, true, false, Some(3));
    let j = afl_job(&c, &no_external_env());
    assert_eq!(
        j.tool_arguments,
        vec!["afl", "build", "--features", "afl", "--target-dir", "target/afl", "--release"]
    );
    assert_eq!(
        pairs(&j.environment_overrides),
        vec![("AFL_QUIET", "1"), ("AFL_OPT_LEVEL", "3"), ("AFL_LLVM_CMPLOG", "1")]
    );
}

#[test]
fn afl_sanitizer_job_rebuilds_std_for_the_asan_target() {
    let c = BuildConfig::from_flags(false, true, false, true, Some(0));
    let ext = ExternalEnv {
        build_tool_override: None,
        compiler_flags: Some("-Cdebuginfo=1".to_string()),
        doc_compiler_flags: None,
    };
    let j = afl_job(&c, &ext);
    assert_eq!(
        j.tool_arguments,
        vec![
            "afl",
            "build",
            "--features",
            "afl",
            "--target-dir",
            "target/afl",
            "--target",
            "x86_64-unknown-linux-gnu",
            "-Zbuild-std",
        ]
    );
    assert_eq!(
        pairs(&j.environment_overrides),
        vec![
            ("RUSTFLAGS", "-Cdebuginfo=1 -Zsanitizer=address -Copt-level=0"),
            ("RUSTDOCFLAGS", " -Zsanitizer=address -Copt-level=0"),
            ("AFL_QUIET", "1"),
            ("AFL_OPT_LEVEL", "0"),
            ("AFL_LLVM_CMPLOG", "1"),
            ("AFL_USE_PLUGINS", "1"),
        ]
    );
}

#[test]
fn honggfuzz_job_uses_its_own_target_directory() {
    let c = BuildConfig::from_flags(true, false, false, false, None);
    let j = honggfuzz_job(&c, &no_external_env());
    assert_eq!(j.engine, EngineKind::Honggfuzz);
    assert_eq!(j.tool_arguments, vec!["hfuzz", "build"]);
    assert_eq!(
        pairs(&j.environment_overrides),
        vec![
            ("CARGO_TARGET_DIR", "target/honggfuzz"),
            ("HFUZZ_BUILD_ARGS", "--features honggfuzz"),
        ]
    );
}

#[test]
fn honggfuzz_job_propagates_external_compiler_flags_unchanged() {
    let c = BuildConfig::from_flags(true, false, true, false, None);
    let ext = ExternalEnv {
        build_tool_override: None,
        compiler_flags: Some("-Copt-level=1".to_string()),
        doc_compiler_flags: None,
    };
    let j = honggfuzz_job(&c, &ext);
    assert_eq!(j.tool_arguments, vec!["hfuzz", "build", "--release"]);
    assert_eq!(
        pairs(&j.environment_overrides),
        vec![
            ("CARGO_TARGET_DIR", "target/honggfuzz"),
            ("HFUZZ_BUILD_ARGS", "--features honggfuzz"),
            ("RUSTFLAGS", "-Copt-level=1"),
        ]
    );
}
