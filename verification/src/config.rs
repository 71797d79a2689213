//! Project-level configuration, as read from `.ripsed.toml`.
use vstd::prelude::*;

verus! {

/// Project-level configuration.
#[derive(Debug, Clone)]
pub struct Config {
    pub defaults: DefaultsConfig,
    pub agent: AgentConfig,
    pub ignore: IgnoreConfig,
    pub undo: UndoConfig,
}

/// Defaults applied to command-line invocations.
#[derive(Debug, Clone)]
pub struct DefaultsConfig {
    pub backup: bool,
    pub gitignore: bool,
    pub max_depth: Option<usize>,
}

/// Settings of agent (JSON) mode.
#[derive(Debug, Clone)]
pub struct AgentConfig {
    pub dry_run: bool,
    pub context_lines: usize,
}

/// Extra ignore patterns.
#[derive(Debug, Clone)]
pub struct IgnoreConfig {
    pub patterns: Vec<String>,
}

/// Settings of the undo log.
#[derive(Debug, Clone)]
pub struct UndoConfig {
    pub max_entries: usize,
}

/// The number of context lines shown around a change when none is configured.
pub fn default_context_lines() -> (r: usize)
    ensures
        r == 3,
{
    3
}

/// The undo log size when none is configured.
pub fn default_max_entries() -> (r: usize)
    ensures
        r == 100,
{
    100
}

impl Default for DefaultsConfig {
    /// No backups, `.gitignore` respected, no depth limit.
    fn default() -> (r: Self)
        ensures
            !r.backup,
            r.gitignore,
            r.max_depth is None,
    {
        DefaultsConfig { backup: false, gitignore: true, max_depth: None }
    }
}

impl Default for AgentConfig {
    /// Dry run, three lines of context.
    fn default() -> (r: Self)
        ensures
            r.dry_run,
            r.context_lines == 3,
    {
        AgentConfig { dry_run: true, context_lines: default_context_lines() }
    }
}

impl Default for IgnoreConfig {
    /// No patterns.
    fn default() -> (r: Self)
        ensures
            r.patterns@.len() == 0,
    {
        IgnoreConfig { patterns: Vec::new() }
    }
}

impl Default for UndoConfig {
    /// A hundred entries.
    fn default() -> (r: Self)
        ensures
            r.max_entries == 100,
    {
        UndoConfig { max_entries: default_max_entries() }
    }
}

impl Default for Config {
    /// Every section at its default.
    fn default() -> (r: Self)
        ensures
            !r.defaults.backup,
            r.defaults.gitignore,
            r.defaults.max_depth is None,
            r.agent.dry_run,
            r.agent.context_lines == 3,
            r.ignore.patterns@.len() == 0,
            r.undo.max_entries == 100,
    {
        Config {
            defaults: DefaultsConfig::default(),
            agent: AgentConfig::default(),
            ignore: IgnoreConfig::default(),
            undo: UndoConfig::default(),
        }
    }
}

} // verus!
