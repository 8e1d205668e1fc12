//! The configuration of one sandbox: its limits, its mounted worktree, its
//! environment and its egress allowlist.
use vstd::prelude::*;
use crate::egress::{domain_views, egress_permitted, SpinneretHttpHooks};
use crate::env::EnvVars;
use crate::limits::MemoryBudget;

verus! {

/// Fuel granted to a sandbox when nothing else is asked for.
pub const DEFAULT_FUEL_LIMIT: u64 = 10_000_000;

/// The cap on the linear memory of a sandbox when nothing else is asked
/// for: 50 MiB.
pub const DEFAULT_MEMORY_LIMIT_BYTES: usize = 1024 * 1024 * 50;

/// The path inside the sandbox under which the worktree is mounted.
pub open spec fn worktree_guest_path() -> Seq<char> {
    "/worktree"@
}

/// What a configuration holds, as mathematical values.
pub struct ConfigView {
    pub fuel_limit: u64,
    pub memory_limit_bytes: usize,
    pub worktree_mount_path: Option<Seq<char>>,
    pub environment_variables: Map<Seq<char>, Seq<char>>,
    pub allowed_egress_domains: Seq<Seq<char>>,
}

/// The view of an optional path.
pub open spec fn path_view(p: Option<String>) -> Option<Seq<char>> {
    match p {
        Some(s) => Some(s@),
        None => None,
    }
}

/// The configuration a sandbox gets by default: default limits, no worktree,
/// no environment variables and no egress at all.
pub open spec fn default_config() -> ConfigView {
    ConfigView {
        fuel_limit: DEFAULT_FUEL_LIMIT,
        memory_limit_bytes: DEFAULT_MEMORY_LIMIT_BYTES,
        worktree_mount_path: None,
        environment_variables: Map::empty(),
        allowed_egress_domains: Seq::empty(),
    }
}

/// Configuration for a single sandbox extrusion.
#[derive(Debug)]
pub struct ExtrusionConfig {
    pub fuel_limit: u64,
    pub memory_limit_bytes: usize,
    pub worktree_mount_path: Option<String>,
    pub environment_variables: EnvVars,
    pub allowed_egress_domains: Vec<String>,
}

impl View for ExtrusionConfig {
    type V = ConfigView;

    open spec fn view(&self) -> ConfigView {
        ConfigView {
            fuel_limit: self.fuel_limit,
            memory_limit_bytes: self.memory_limit_bytes,
            worktree_mount_path: path_view(self.worktree_mount_path),
            environment_variables: self.environment_variables@,
            allowed_egress_domains: domain_views(self.allowed_egress_domains@),
        }
    }
}

/// Where the worktree of a sandbox is mounted: a directory of the host and
/// the path under which the sandbox sees it.
#[derive(Debug)]
pub struct WorktreeMount {
    pub host_path: String,
    pub guest_path: String,
}

/// A copy of a list of strings.
pub(crate) fn clone_strings(v: &Vec<String>) -> (r: Vec<String>)
    ensures
        r@ == v@,
{
    let mut r: Vec<String> = Vec::new();
    let mut i: usize = 0;
    while i < v.len()
        invariant
            0 <= i <= v@.len(),
            r@ =~= v@.subrange(0, i as int),
        decreases v@.len() - i,
    {
        r.push(v[i].clone());
        i = i + 1;
    }
    r
}

impl Default for ExtrusionConfig {
    fn default() -> (r: ExtrusionConfig)
        ensures
            r@ == default_config(),
    {
        let r = ExtrusionConfig {
            fuel_limit: DEFAULT_FUEL_LIMIT,
            memory_limit_bytes: DEFAULT_MEMORY_LIMIT_BYTES,
            worktree_mount_path: None,
            environment_variables: EnvVars::new(),
            allowed_egress_domains: Vec::new(),
        };
        assert(domain_views(r.allowed_egress_domains@) =~= Seq::<Seq<char>>::empty());
        r
    }
}

impl Clone for ExtrusionConfig {
    fn clone(&self) -> (r: ExtrusionConfig)
        ensures
            r@ == self@,
    {
        ExtrusionConfig {
            fuel_limit: self.fuel_limit,
            memory_limit_bytes: self.memory_limit_bytes,
            worktree_mount_path: match &self.worktree_mount_path {
                Some(p) => Some(p.clone()),
                None => None,
            },
            environment_variables: self.environment_variables.clone(),
            allowed_egress_domains: clone_strings(&self.allowed_egress_domains),
        }
    }
}

impl ExtrusionConfig {
    /// The egress policy of a sandbox made from this configuration: it allows
    /// exactly the configured domains.
    pub fn http_hooks(&self) -> (r: SpinneretHttpHooks)
        ensures
            r.allowed() == self@.allowed_egress_domains,
    {
        SpinneretHttpHooks::new(clone_strings(&self.allowed_egress_domains))
    }

    /// The memory budget of a sandbox made from this configuration: all its
    /// linear memories together are capped at the configured bytes.
    pub fn memory_budget(&self) -> (r: MemoryBudget)
        ensures
            r.wf(),
            r.limit() == self@.memory_limit_bytes,
            r.reserved() == 0,
    {
        MemoryBudget::new(self.memory_limit_bytes)
    }

    /// The worktree mount of a sandbox made from this configuration: the
    /// configured host directory, seen at `/worktree`, or none.
    pub fn worktree_mount(&self) -> (r: Option<WorktreeMount>)
        ensures
            match r {
                Some(m) => self@.worktree_mount_path == Some(m.host_path@) && m.guest_path@
                    == worktree_guest_path(),
                None => self@.worktree_mount_path is None,
            },
    {
        match &self.worktree_mount_path {
            Some(p) => {
                proof {
                    reveal_strlit("/worktree");
                }
                Some(WorktreeMount { host_path: p.clone(), guest_path: String::from_str("/worktree") })
            },
            None => None,
        }
    }
}

/// Deny by default: a sandbox made from the default configuration lets no
/// outgoing request leave, whatever its host.
pub proof fn lemma_default_config_denies_egress(host: Option<Seq<char>>)
    ensures
        !egress_permitted(default_config().allowed_egress_domains, host),
{
}

} // verus!
