//! Ownership wrapper around terminal processes: resolving a launch
//! configuration from the shell table and driving a terminal's lifecycle.

use crate::assoc::{assoc_value, keys_unique, merge_env, merged_value};
use crate::config::{ShellConfig, TerminalConfig};
use crate::pty::{Pty, PtyConfig, PtyError};
use crate::text::clone_opt_string;
use vstd::prelude::*;

verus! {

/// The bindings of an optional environment layer; an absent layer binds
/// nothing.
pub open spec fn env_layer(env: Option<Vec<(String, String)>>) -> Seq<(String, String)> {
    match env {
        Some(e) => e@,
        None => Seq::empty(),
    }
}

/// The shell entry a launch resolves against: the requested shell type's
/// entry when the table has one, else the default shell type's entry.
pub open spec fn resolved_shell_entry(config: TerminalConfig, shell_type: Seq<char>) -> Option<
    ShellConfig,
> {
    match assoc_value(config.shells@, shell_type) {
        Some(sc) => Some(sc),
        None => assoc_value(config.shells@, config.default_shell_type@),
    }
}

/// Manager of terminal processes for the session runtime.
pub struct PtyManager;

impl PtyManager {
    /// Create a terminal manager.
    pub fn new() -> (m: PtyManager) {
        PtyManager
    }

    /// Resolve the launch configuration for `shell_type`: the requested
    /// entry, or the default shell type's entry when the requested one is
    /// absent. The entry's command becomes program and arguments; size and
    /// working directory fall back to the default layer; the environment
    /// layers merge key by key, the entry's value winning. Fails exactly
    /// when no entry resolves or the resolved command is empty.
    pub fn resolve_pty_config(&self, config: &TerminalConfig, shell_type: &str) -> (r: Result<
        PtyConfig,
        PtyError,
    >)
        requires
            config.wf(),
        ensures
            r is Ok <==> (resolved_shell_entry(*config, shell_type@) is Some
                && resolved_shell_entry(*config, shell_type@).unwrap().command@.len() > 0),
            r is Ok ==> {
                let sc = resolved_shell_entry(*config, shell_type@).unwrap();
                let pc = r.unwrap();
                &&& pc.command == sc.command@[0]
                &&& pc.args@ == sc.command@.skip(1)
                &&& pc.cols == (match sc.size {
                    Some(sz) => sz.columns,
                    None => config.default_shell_config.size.columns,
                })
                &&& pc.rows == (match sc.size {
                    Some(sz) => sz.rows,
                    None => config.default_shell_config.size.rows,
                })
                &&& pc.cwd == (match sc.working_directory {
                    Some(w) => Some(w),
                    None => config.default_shell_config.working_directory,
                })
                &&& keys_unique(pc.env@)
                &&& forall|key: Seq<char>| #[trigger]
                    assoc_value(pc.env@, key) == merged_value(
                        env_layer(config.default_shell_config.environment),
                        env_layer(sc.environment),
                        key,
                    )
            },
    {
        let entry = match crate::assoc::assoc_find(&config.shells, shell_type) {
            Some(idx) => {
                proof {
                    crate::assoc::lemma_assoc_value_at(config.shells@, idx as int, shell_type@);
                }
                Some(idx)
            },
            None => {
                proof {
                    crate::assoc::lemma_assoc_has_exists(config.shells@, shell_type@);
                }
                match crate::assoc::assoc_find(
                    &config.shells,
                    config.default_shell_type.as_str(),
                ) {
                    Some(idx) => {
                        proof {
                            crate::assoc::lemma_assoc_value_at(
                                config.shells@,
                                idx as int,
                                config.default_shell_type@,
                            );
                        }
                        Some(idx)
                    },
                    None => {
                        proof {
                            crate::assoc::lemma_assoc_has_exists(
                                config.shells@,
                                config.default_shell_type@,
                            );
                        }
                        None
                    },
                }
            },
        };
        match entry {
            Some(idx) => {
                let sc = &config.shells[idx].1;
                if sc.command.len() == 0 {
                    return Err(
                        PtyError::Other("shell configuration has an empty command".to_owned()),
                    );
                }
                let command = sc.command[0].clone();
                let n = sc.command.len();
                let mut args: Vec<String> = Vec::new();
                let mut i: usize = 1;
                while i < n
                    invariant
                        1 <= i <= n,
                        n == sc.command@.len(),
                        args@ =~= sc.command@.subrange(1, i as int),
                    decreases n - i,
                {
                    args.push(sc.command[i].clone());
                    i += 1;
                }
                proof {
                    assert(args@ =~= sc.command@.skip(1));
                }
                let (cols, rows) = match &sc.size {
                    Some(sz) => (sz.columns, sz.rows),
                    None => (
                        config.default_shell_config.size.columns,
                        config.default_shell_config.size.rows,
                    ),
                };
                let cwd = match &sc.working_directory {
                    Some(w) => Some(w.clone()),
                    None => clone_opt_string(&config.default_shell_config.working_directory),
                };
                let empty_base: Vec<(String, String)> = Vec::new();
                let empty_specific: Vec<(String, String)> = Vec::new();
                let base = match &config.default_shell_config.environment {
                    Some(b) => b,
                    None => &empty_base,
                };
                let specific = match &sc.environment {
                    Some(s) => s,
                    None => &empty_specific,
                };
                proof {
                    assert(base@ =~= env_layer(config.default_shell_config.environment));
                    assert(specific@ =~= env_layer(sc.environment));
                }
                let env = merge_env(base, specific);
                Ok(PtyConfig { command, args, cols, rows, env, cwd })
            },
            None => Err(
                PtyError::Other("no shell configuration found for the shell type".to_owned()),
            ),
        }
    }

    /// Stop a terminal's process; stopping one that already exited succeeds.
    pub fn kill_pty<P: Pty>(&self, pty: &mut P) -> (r: Result<(), PtyError>)
        requires
            old(pty).inv(),
        ensures
            final(pty).inv(),
            r is Ok,
            !final(pty).alive(),
            final(pty).kill_count() == (if old(pty).kill_count() < u64::MAX {
                old(pty).kill_count() + 1
            } else {
                old(pty).kill_count()
            }),
            final(pty).writes() == old(pty).writes(),
            final(pty).output() == old(pty).output(),
    {
        pty.kill()
    }

    /// Whether a terminal's process is still running.
    pub fn is_pty_alive<P: Pty>(&self, pty: &P) -> (r: bool)
        requires
            pty.inv(),
        ensures
            r == pty.alive(),
    {
        pty.is_alive()
    }
}

} // verus!
