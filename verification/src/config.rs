//! Shell configuration: a default layer plus per-shell overrides, and the
//! resolution of the two into one launch configuration.

use crate::assoc::{assoc_value, keys_unique, merged_value, assoc_find, clone_env, merge_env,
    lemma_assoc_value_at, lemma_assoc_has_exists};
use crate::text::{clone_opt_string, clone_string_vec};
use vstd::prelude::*;

verus! {

/// Terminal dimensions in character cells.
#[derive(Clone, Copy, Debug, PartialEq, Eq, Structural)]
pub struct TerminalSize {
    pub columns: u16,
    pub rows: u16,
}

/// Fallback configuration applied to every shell type.
pub struct DefaultShellConfig {
    /// Terminal size used when a shell entry gives none.
    pub size: TerminalSize,
    /// Working directory used when a shell entry gives none.
    pub working_directory: Option<String>,
    /// Base environment layer.
    pub environment: Option<Vec<(String, String)>>,
}

/// Configuration of one specific shell type.
pub struct ShellConfig {
    /// Command line to launch: program followed by its arguments.
    pub command: Vec<String>,
    /// Working directory override.
    pub working_directory: Option<String>,
    /// Terminal size override.
    pub size: Option<TerminalSize>,
    /// Environment layer merged key by key over the default layer.
    pub environment: Option<Vec<(String, String)>>,
}

/// Whole terminal configuration: the default layer, and a table of shell
/// configurations keyed by shell type.
pub struct TerminalConfig {
    /// Shell type used when a request names none.
    pub default_shell_type: String,
    /// Session timeout in milliseconds.
    pub session_timeout: u64,
    /// Fallback layer for every shell.
    pub default_shell_config: DefaultShellConfig,
    /// Per-shell-type configurations.
    pub shells: Vec<(String, ShellConfig)>,
}

/// Launch configuration with every field resolved from the two layers.
pub struct ResolvedShellConfig {
    /// Shell type the resolution was asked for.
    pub shell_type: String,
    /// Command line of the shell entry; empty when the shell type is unknown.
    pub command: Vec<String>,
    /// Resolved terminal size.
    pub size: TerminalSize,
    /// Resolved working directory.
    pub working_directory: Option<String>,
    /// Resolved environment.
    pub environment: Option<Vec<(String, String)>>,
}

/// An environment layer is well formed when its keys are unique, as they are
/// when the layer comes from a map.
pub open spec fn env_wf(env: Option<Vec<(String, String)>>) -> bool {
    match env {
        Some(e) => keys_unique(e@),
        None => true,
    }
}

/// How two environment layers resolve: the key-by-key merge when both are
/// present, the present one alone otherwise, nothing when neither is given.
pub open spec fn env_resolved(
    base: Option<Vec<(String, String)>>,
    specific: Option<Vec<(String, String)>>,
    r: Option<Vec<(String, String)>>,
) -> bool {
    match (base, specific) {
        (None, None) => r is None,
        (Some(b), None) => r is Some && r.unwrap()@ == b@,
        (None, Some(s)) => r is Some && r.unwrap()@ == s@,
        (Some(b), Some(s)) => {
            &&& r is Some
            &&& keys_unique(r.unwrap()@)
            &&& forall|key: Seq<char>| #[trigger]
                assoc_value(r.unwrap()@, key) == merged_value(b@, s@, key)
        },
    }
}

/// Resolve two optional environment layers into one.
fn resolve_env(
    base: &Option<Vec<(String, String)>>,
    specific: &Option<Vec<(String, String)>>,
) -> (r: Option<Vec<(String, String)>>)
    requires
        env_wf(*base),
        env_wf(*specific),
    ensures
        env_resolved(*base, *specific, r),
{
    match (base, specific) {
        (None, None) => None,
        (Some(b), None) => Some(clone_env(b)),
        (None, Some(s)) => Some(clone_env(s)),
        (Some(b), Some(s)) => Some(merge_env(b, s)),
    }
}

impl TerminalConfig {
    /// The shell table and every environment layer keep their keys unique.
    pub open spec fn wf(&self) -> bool {
        &&& keys_unique(self.shells@)
        &&& env_wf(self.default_shell_config.environment)
        &&& forall|i: int|
            0 <= i < self.shells@.len() ==> env_wf(#[trigger] self.shells@[i].1.environment)
    }

    /// Resolve the full launch configuration for `shell_type`: each of size,
    /// working directory and environment falls back to the default layer
    /// independently; the environment layers merge key by key. An unknown
    /// shell type resolves to an empty command over the default layer.
    pub fn get_shell_config(&self, shell_type: &str) -> (r: ResolvedShellConfig)
        requires
            self.wf(),
        ensures
            r.shell_type@ == shell_type@,
            match assoc_value(self.shells@, shell_type@) {
                Some(sc) => {
                    &&& r.command@ == sc.command@
                    &&& r.size == (match sc.size {
                        Some(sz) => sz,
                        None => self.default_shell_config.size,
                    })
                    &&& r.working_directory == (match sc.working_directory {
                        Some(w) => Some(w),
                        None => self.default_shell_config.working_directory,
                    })
                    &&& env_resolved(
                        self.default_shell_config.environment,
                        sc.environment,
                        r.environment,
                    )
                },
                None => {
                    &&& r.command@ == Seq::<String>::empty()
                    &&& r.size == self.default_shell_config.size
                    &&& r.working_directory == self.default_shell_config.working_directory
                    &&& env_resolved(
                        self.default_shell_config.environment,
                        None,
                        r.environment,
                    )
                },
            },
    {
        let found = assoc_find(&self.shells, shell_type);
        proof {
            lemma_assoc_has_exists(self.shells@, shell_type@);
        }
        match found {
            Some(idx) => {
                proof {
                    lemma_assoc_value_at(self.shells@, idx as int, shell_type@);
                }
                let sc = &self.shells[idx].1;
                let size = match &sc.size {
                    Some(sz) => *sz,
                    None => self.default_shell_config.size,
                };
                let working_directory = match &sc.working_directory {
                    Some(w) => Some(w.clone()),
                    None => clone_opt_string(&self.default_shell_config.working_directory),
                };
                let environment = resolve_env(
                    &self.default_shell_config.environment,
                    &sc.environment,
                );
                ResolvedShellConfig {
                    shell_type: shell_type.to_owned(),
                    command: clone_string_vec(&sc.command),
                    size,
                    working_directory,
                    environment,
                }
            },
            None => {
                let environment = resolve_env(&self.default_shell_config.environment, &None);
                ResolvedShellConfig {
                    shell_type: shell_type.to_owned(),
                    command: Vec::new(),
                    size: self.default_shell_config.size,
                    working_directory: clone_opt_string(
                        &self.default_shell_config.working_directory,
                    ),
                    environment,
                }
            },
        }
    }
}

/// Failure while loading or resolving configuration.
#[derive(Debug)]
pub enum ConfigError {
    /// The configuration file could not be opened.
    FileOpenError(String),
    /// The configuration file could not be parsed.
    ParseError(String),
    /// No configuration file at the given place.
    FileNotFound(String),
    /// The configuration's structure is not usable.
    InvalidStructure(String),
    /// The default shell configuration is missing.
    DefaultShellConfigNotFound,
    /// No shell configuration for the given shell type.
    ShellConfigNotFound(String),
}

} // verus!
