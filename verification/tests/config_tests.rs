use fuzzmux::config::{validate, BuildConfig, BuildError};

fn config(
    no_afl: bool,
    no_honggfuzz: bool,
    release: bool,
    asan: bool,
    opt: Option<u32>,
) -> BuildConfig {
    BuildConfig::from_flags(no_afl, no_honggfuzz, release, asan, opt)
}

#[test]
fn both_engines_disabled_fails_with_no_engine_selected() {
    let c = config(true, true, false, false, None);
    assert_eq!(validate(&c), Err(BuildError::NoEngineSelected));
}

#[test]
fn both_engines_disabled_fails_whatever_the_other_options_say() {
    let c = config(true, true, true, true, Some(3));
    assert_eq!(validate(&c), Err(BuildError::NoEngineSelected));
}

#[test]
fn sanitizer_with_nonzero_optimization_override_is_invalid() {
    let c = config(false, true, false, true, Some(2));
    assert_eq!(validate(&c), Err(BuildError::InvalidConfiguration));
}

#[test]
fn sanitizer_with_zero_optimization_override_is_accepted() {
    let c = config(false, true, false, true, Some(0));
    assert_eq!(validate(&c), Ok(()));
}

#[test]
fn sanitizer_with_release_mode_is_invalid() {
    let c = config(false, true, true, true, None);
    assert_eq!(validate(&c), Err(BuildError::InvalidConfiguration));
}

#[test]
fn sanitizer_with_honggfuzz_is_invalid() {
    let c = config(true, false, false, true, None);
    assert_eq!(validate(&c), Err(BuildError::InvalidConfiguration));
}

#[test]
fn sanitizer_with_honggfuzz_is_invalid_even_with_afl_also_enabled() {
    let c = config(false, false, false, true, None);
    assert_eq!(validate(&c), Err(BuildError::InvalidConfiguration));
}

#[test]
fn plain_afl_build_is_accepted() {
    let c = config(false, true, false, false, None);
    assert_eq!(validate(&c), Ok(()));
}

#[test]
fn both_engines_release_build_is_accepted() {
    let c = config(false, false, true, false, Some(3));
    assert_eq!(validate(&c), Ok(()));
}

#[test]
fn effective_level_defaults_to_zero_and_honors_the_override() {
    let c = config(false, false, false, false, None);
    assert_eq!(c.effective_opt_level(), 0);
    let c = config(false, false, false, false, Some(3));
    assert_eq!(c.effective_opt_level(), 3);
}

#[test]
fn from_flags_negates_the_exclusion_flags() {
    let c = config(true, false, false, false, None);
    assert!(!c.afl_enabled);
    assert!(c.honggfuzz_enabled);
    let c = config(false, true, true, false, Some(1));
    assert!(c.afl_enabled);
    assert!(!c.honggfuzz_enabled);
    assert!(c.release_mode);
    assert_eq!(c.optimization_level_override, Some(1));
}
