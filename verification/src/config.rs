//! Build configuration and its validation.
//!
//! A `BuildConfig` is constructed once per build session from caller-supplied
//! flags and is read-only afterwards. `validate` enforces the cross-engine
//! constraints: at least one engine must be enabled, and sanitizer builds are
//! incompatible with a non-zero optimization override, with release mode and
//! with the Honggfuzz-class engine. Every failure is a configuration error
//! reported before any build tool would be spawned.

use vstd::prelude::*;

verus! {

/// One of the two supported coverage-guided fuzzing engines.
#[derive(Clone, Copy, Debug, PartialEq, Eq, Structural)]
pub enum EngineKind {
    Afl,
    Honggfuzz,
}

/// How a spawned build tool terminated: a normal exit with a code, or death
/// by signal.
#[derive(Clone, Copy, Debug, PartialEq, Eq, Structural)]
pub enum ExitOutcome {
    Code(i32),
    Signal,
}

/// Why a build session failed. Every variant aborts the whole session; there
/// is no partial success.
#[derive(Clone, Debug, PartialEq, Eq)]
pub enum BuildError {
    /// Both engines were disabled, so there is nothing to build.
    NoEngineSelected,
    /// The configuration combines options that cannot be honored together
    /// (sanitizer mode with a non-zero optimization override, with release
    /// mode, or with the Honggfuzz-class engine).
    InvalidConfiguration,
    /// An engine's build tool ran and terminated unsuccessfully.
    EngineBuildFailed { engine: EngineKind, exit: ExitOutcome },
    /// An engine's build tool could not be started at all; carries the
    /// operating system's description of why.
    SpawnFailed { engine: EngineKind, message: String },
}

/// The immutable per-session build options.
#[derive(Clone, Copy, Debug, PartialEq, Eq, Structural)]
pub struct BuildConfig {
    /// Build for the AFL-class engine.
    pub afl_enabled: bool,
    /// Build for the Honggfuzz-class engine.
    pub honggfuzz_enabled: bool,
    /// Pass the build tool's release flag.
    pub release_mode: bool,
    /// Instrument the build (and the standard library) with AddressSanitizer.
    pub address_sanitizer: bool,
    /// Optimization level requested by the caller, if any; the effective
    /// level defaults to 0 when absent.
    pub optimization_level_override: Option<u32>,
}

impl BuildConfig {
    /// Builds a configuration from the caller's flags. The engine fields are
    /// the negations of the exclusion flags, so that disabling both engines
    /// takes an explicit request.
    pub fn from_flags(
        no_afl: bool,
        no_honggfuzz: bool,
        release: bool,
        address_sanitizer: bool,
        optimization_level_override: Option<u32>,
    ) -> (c: BuildConfig)
        ensures
            c == (BuildConfig {
                afl_enabled: !no_afl,
                honggfuzz_enabled: !no_honggfuzz,
                release_mode: release,
                address_sanitizer,
                optimization_level_override,
            }),
    {
        BuildConfig {
            afl_enabled: !no_afl,
            honggfuzz_enabled: !no_honggfuzz,
            release_mode: release,
            address_sanitizer,
            optimization_level_override,
        }
    }

    /// At least one engine is enabled.
    pub open spec fn any_engine_enabled(self) -> bool {
        self.afl_enabled || self.honggfuzz_enabled
    }

    /// The optimization override is present and non-zero, which sanitizer
    /// mode cannot honor.
    pub open spec fn nonzero_opt_override(self) -> bool {
        match self.optimization_level_override {
            Some(n) => n != 0,
            None => false,
        }
    }

    /// The optimization level the build tools are told to use: the override
    /// if present, else the lowest level.
    pub open spec fn spec_effective_opt_level(self) -> u32 {
        match self.optimization_level_override {
            Some(n) => n,
            None => 0u32,
        }
    }

    /// Executable form of [`Self::spec_effective_opt_level`].
    pub fn effective_opt_level(&self) -> (level: u32)
        ensures
            level == self.spec_effective_opt_level(),
    {
        match self.optimization_level_override {
            Some(n) => n,
            None => 0u32,
        }
    }
}

/// What validation decides for a configuration, checked in this order: no
/// engine selected; then the three sanitizer contradictions (non-zero
/// optimization, release mode, the Honggfuzz-class engine), each a fatal
/// configuration error.
pub open spec fn spec_validate(c: BuildConfig) -> Result<(), BuildError> {
    if !c.any_engine_enabled() {
        Err(BuildError::NoEngineSelected)
    } else if c.address_sanitizer && c.nonzero_opt_override() {
        Err(BuildError::InvalidConfiguration)
    } else if c.address_sanitizer && c.release_mode {
        Err(BuildError::InvalidConfiguration)
    } else if c.address_sanitizer && c.honggfuzz_enabled {
        Err(BuildError::InvalidConfiguration)
    } else {
        Ok(())
    }
}

/// A configuration that validation accepts.
pub open spec fn valid_config(c: BuildConfig) -> bool {
    spec_validate(c) is Ok
}

/// Checks a configuration before anything is built. Returns exactly what
/// [`spec_validate`] prescribes, so a failed configuration never reaches a
/// build tool.
pub fn validate(c: &BuildConfig) -> (r: Result<(), BuildError>)
    ensures
        r == spec_validate(*c),
{
    if !c.afl_enabled && !c.honggfuzz_enabled {
        Err(BuildError::NoEngineSelected)
    } else if c.address_sanitizer && c.effective_opt_level() != 0 {
        Err(BuildError::InvalidConfiguration)
    } else if c.address_sanitizer && c.release_mode {
        Err(BuildError::InvalidConfiguration)
    } else if c.address_sanitizer && c.honggfuzz_enabled {
        Err(BuildError::InvalidConfiguration)
    } else {
        Ok(())
    }
}

/// With both engines disabled, validation fails with `NoEngineSelected` —
/// for every setting of the remaining options — and therefore no engine job
/// exists and no subprocess is ever spawned for such a configuration.
pub proof fn lemma_no_engine_selected(c: BuildConfig)
    requires
        !c.afl_enabled,
        !c.honggfuzz_enabled,
    ensures
        spec_validate(c) == Err::<(), BuildError>(BuildError::NoEngineSelected),
{
}

/// With the sanitizer on and a non-zero optimization override, validation of
/// any configuration that selects an engine fails with
/// `InvalidConfiguration`, before any subprocess is spawned. (With no engine
/// selected at all, `NoEngineSelected` takes precedence.)
pub proof fn lemma_sanitizer_rejects_nonzero_opt(c: BuildConfig)
    requires
        c.any_engine_enabled(),
        c.address_sanitizer,
        c.optimization_level_override matches Some(n) && n != 0,
    ensures
        spec_validate(c) == Err::<(), BuildError>(BuildError::InvalidConfiguration),
{
}

/// With the sanitizer on and the Honggfuzz-class engine enabled — whether or
/// not the AFL-class engine is also enabled — validation fails with
/// `InvalidConfiguration`.
pub proof fn lemma_sanitizer_rejects_honggfuzz(c: BuildConfig)
    requires
        c.address_sanitizer,
        c.honggfuzz_enabled,
    ensures
        spec_validate(c) == Err::<(), BuildError>(BuildError::InvalidConfiguration),
{
}

} // verus!
