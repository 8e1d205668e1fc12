//! The hosted core: how a local execution request becomes a sandbox
//! configuration, where its orb is looked for, and what it is answered.
use vstd::prelude::*;
use crate::config::{
    clone_strings, default_config, path_view, ConfigView, ExtrusionConfig, DEFAULT_FUEL_LIMIT,
    DEFAULT_MEMORY_LIMIT_BYTES,
};
use crate::egress::domain_views;
use crate::env::EnvVars;
use crate::text::{json_quote, json_string_literal};

verus! {

/// The environment variable through which a sandbox receives the input of
/// its request, serialized as JSON.
pub open spec fn input_env_var() -> Seq<char> {
    "SPINNERET_INPUT"@
}

/// A request to execute an orb in a local sandbox.
#[derive(Debug)]
pub struct LocalExecutionRequest {
    /// The name of the orb (e.g. "agent-worker" or "http-client").
    pub orb_name: String,
    /// The input parameters of the execution, as JSON text.
    pub input_json: String,
    /// Resource limit for CPU (fuel).
    pub fuel_limit: Option<u64>,
    /// Resource limit for linear memory, in bytes.
    pub memory_limit: Option<usize>,
    /// A host directory to mount under `/worktree`.
    pub workspace_path: Option<String>,
    /// The hosts that outgoing HTTP requests may go to.
    pub allowed_domains: Option<Vec<String>>,
    /// Environment variables to set in the sandbox.
    pub env_vars: Option<EnvVars>,
}

/// The answer to a successful execution.
#[derive(Debug)]
pub struct LocalExecutionResponse {
    /// The result of the execution, as JSON text.
    pub output_json: String,
    /// The fuel the execution consumed.
    pub fuel_consumed: u64,
}

/// What a request holds, as mathematical values.
pub struct RequestView {
    pub orb_name: Seq<char>,
    pub input_json: Seq<char>,
    pub fuel_limit: Option<u64>,
    pub memory_limit: Option<usize>,
    pub workspace_path: Option<Seq<char>>,
    pub allowed_domains: Option<Seq<Seq<char>>>,
    pub env_vars: Option<Map<Seq<char>, Seq<char>>>,
}

impl View for LocalExecutionRequest {
    type V = RequestView;

    open spec fn view(&self) -> RequestView {
        RequestView {
            orb_name: self.orb_name@,
            input_json: self.input_json@,
            fuel_limit: self.fuel_limit,
            memory_limit: self.memory_limit,
            workspace_path: path_view(self.workspace_path),
            allowed_domains: match self.allowed_domains {
                Some(d) => Some(domain_views(d@)),
                None => None,
            },
            env_vars: match self.env_vars {
                Some(e) => Some(e@),
                None => None,
            },
        }
    }
}

/// The sandbox configuration for a request: what the request asks for, and
/// the defaults where it asks for nothing; its input is always passed in
/// `SPINNERET_INPUT`, over any variable of that name that it gives.
pub open spec fn planned_config(req: RequestView) -> ConfigView {
    ConfigView {
        fuel_limit: match req.fuel_limit {
            Some(f) => f,
            None => DEFAULT_FUEL_LIMIT,
        },
        memory_limit_bytes: match req.memory_limit {
            Some(m) => m,
            None => DEFAULT_MEMORY_LIMIT_BYTES,
        },
        worktree_mount_path: req.workspace_path,
        environment_variables: match req.env_vars {
            Some(e) => e,
            None => Map::empty(),
        }.insert(input_env_var(), req.input_json),
        allowed_egress_domains: match req.allowed_domains {
            Some(d) => d,
            None => Seq::empty(),
        },
    }
}

/// The file name of an orb: its name with the `.wasm` extension.
pub open spec fn orb_file_name_spec(orb_name: Seq<char>) -> Seq<char> {
    orb_name + ".wasm"@
}

/// The error of a request whose orb is in none of the search directories.
pub open spec fn orb_not_found_text(orb_name: Seq<char>) -> Seq<char> {
    "Orb '"@ + orb_name + "' not found in search directories"@
}

/// The message of a successful execution.
pub open spec fn success_message(orb_name: Seq<char>) -> Seq<char> {
    "Executed Orb '"@ + orb_name + "' programmatically."@
}

/// The JSON output of a successful execution: its status and message.
pub open spec fn success_output(orb_name: Seq<char>) -> Seq<char> {
    "{\"status\":\"success\",\"message\":"@ + json_string_literal(success_message(orb_name))
        + "}"@
}

/// The sandbox configuration for `req`.
pub fn extrusion_config_for(req: &LocalExecutionRequest) -> (r: ExtrusionConfig)
    ensures
        r@ == planned_config(req@),
{
    let mut config = ExtrusionConfig::default();
    if let Some(fuel) = req.fuel_limit {
        config.fuel_limit = fuel;
    }
    if let Some(mem) = req.memory_limit {
        config.memory_limit_bytes = mem;
    }
    config.worktree_mount_path = match &req.workspace_path {
        Some(p) => Some(p.clone()),
        None => None,
    };
    if let Some(domains) = &req.allowed_domains {
        config.allowed_egress_domains = clone_strings(domains);
    }
    let mut env_vars = match &req.env_vars {
        Some(e) => e.clone(),
        None => EnvVars::new(),
    };
    proof {
        reveal_strlit("SPINNERET_INPUT");
    }
    env_vars.insert(String::from_str("SPINNERET_INPUT"), req.input_json.clone());
    config.environment_variables = env_vars;
    assert(config@.environment_variables == planned_config(req@).environment_variables);
    assert(config@.allowed_egress_domains =~= planned_config(req@).allowed_egress_domains);
    config
}

/// The file name under which the orb `orb_name` is looked for.
pub fn orb_file_name(orb_name: &str) -> (r: String)
    ensures
        r@ == orb_file_name_spec(orb_name@),
{
    let mut r = String::from_str(orb_name);
    r.append(".wasm");
    proof {
        reveal_strlit(".wasm");
    }
    r
}

/// The error message for an orb that none of the search directories holds.
pub fn orb_not_found_message(orb_name: &str) -> (r: String)
    ensures
        r@ == orb_not_found_text(orb_name@),
{
    let mut r = String::from_str("Orb '");
    r.append(orb_name);
    r.append("' not found in search directories");
    proof {
        reveal_strlit("Orb '");
        reveal_strlit("' not found in search directories");
    }
    r
}

/// The response to a successful execution of the orb `orb_name`, which
/// consumed `fuel_consumed` fuel.
pub fn success_response(orb_name: &str, fuel_consumed: u64) -> (r: LocalExecutionResponse)
    ensures
        r.output_json@ == success_output(orb_name@),
        r.fuel_consumed == fuel_consumed,
{
    let mut message = String::from_str("Executed Orb '");
    message.append(orb_name);
    message.append("' programmatically.");
    let mut out = String::from_str("{\"status\":\"success\",\"message\":");
    out.append(json_quote(message.as_str()).as_str());
    out.append("}");
    proof {
        reveal_strlit("Executed Orb '");
        reveal_strlit("' programmatically.");
        reveal_strlit("{\"status\":\"success\",\"message\":");
        reveal_strlit("}");
    }
    LocalExecutionResponse { output_json: out, fuel_consumed }
}

/// A request that asks for nothing runs with the default configuration,
/// with its input in `SPINNERET_INPUT` as the only environment variable.
pub proof fn lemma_plain_request_runs_with_defaults(req: RequestView)
    requires
        req.fuel_limit is None,
        req.memory_limit is None,
        req.workspace_path is None,
        req.allowed_domains is None,
        req.env_vars is None,
    ensures
        planned_config(req) == (ConfigView {
            environment_variables: map![input_env_var() => req.input_json],
            ..default_config()
        }),
{
    assert(planned_config(req).environment_variables =~= map![input_env_var() => req.input_json]);
}

/// The input of a request always reaches its sandbox, under
/// `SPINNERET_INPUT`, whatever variables the request sets; every other
/// variable it sets is passed unchanged.
pub proof fn lemma_input_always_passed(req: RequestView, name: Seq<char>)
    ensures
        planned_config(req).environment_variables.contains_key(input_env_var()),
        planned_config(req).environment_variables[input_env_var()] == req.input_json,
        match req.env_vars {
            Some(e) => name != input_env_var() && e.contains_key(name) ==> (
            planned_config(req).environment_variables.contains_key(name)
                && planned_config(req).environment_variables[name] == e[name]),
            None => true,
        },
{
}

/// A request that asks for a fuel limit gets exactly that limit, above or
/// below the default; one that asks for none gets 10,000,000.
pub proof fn lemma_requested_fuel_granted(req: RequestView, fuel: u64)
    ensures
        req.fuel_limit == Some(fuel) ==> planned_config(req).fuel_limit == fuel,
        req.fuel_limit is None ==> planned_config(req).fuel_limit == 10_000_000u64,
{
}

/// A request that asks for a memory cap gets exactly that cap, above or
/// below the default; one that asks for none gets 50 MiB.
pub proof fn lemma_requested_memory_granted(req: RequestView, bytes: usize)
    ensures
        req.memory_limit == Some(bytes) ==> planned_config(req).memory_limit_bytes == bytes,
        req.memory_limit is None ==> planned_config(req).memory_limit_bytes == 52_428_800usize,
{
}

/// A request that lists allowed domains gets every one of them, in its
/// order and nothing else: each listed domain is permitted, and a host is
/// permitted only if listed. One that lists none allows no egress.
pub proof fn lemma_requested_domains_granted(
    req: RequestView,
    domains: Seq<Seq<char>>,
    host: Seq<char>,
)
    ensures
        req.allowed_domains == Some(domains) ==> {
            &&& planned_config(req).allowed_egress_domains == domains
            &&& planned_config(req).allowed_egress_domains.len() == domains.len()
            &&& forall|i: int|
                0 <= i < domains.len() ==> #[trigger] planned_config(req).allowed_egress_domains[i]
                    == domains[i]
            &&& domains.contains(host) == planned_config(req).allowed_egress_domains.contains(
                host,
            )
        },
        req.allowed_domains is None ==> planned_config(req).allowed_egress_domains.len() == 0,
{
}

/// The worktree a request asks for is the one mounted, and none is mounted
/// when it asks for none.
pub proof fn lemma_requested_worktree_granted(req: RequestView)
    ensures
        planned_config(req).worktree_mount_path == req.workspace_path,
{
}

/// The file looked for is the orb's name, character for character, followed
/// by `.wasm`.
pub proof fn lemma_orb_file_name_is_name_dot_wasm(orb_name: Seq<char>)
    ensures
        orb_file_name_spec(orb_name).len() == orb_name.len() + 5,
        forall|i: int|
            0 <= i < orb_name.len() ==> #[trigger] orb_file_name_spec(orb_name)[i] == orb_name[i],
        orb_file_name_spec(orb_name)[orb_name.len() as int] == '.',
        orb_file_name_spec(orb_name)[orb_name.len() + 1int] == 'w',
        orb_file_name_spec(orb_name)[orb_name.len() + 2int] == 'a',
        orb_file_name_spec(orb_name)[orb_name.len() + 3int] == 's',
        orb_file_name_spec(orb_name)[orb_name.len() + 4int] == 'm',
{
    reveal_strlit(".wasm");
}

/// The sandbox of a request sees exactly the variables the request sets,
/// plus `SPINNERET_INPUT`, and no other.
pub proof fn lemma_no_other_variables(req: RequestView, name: Seq<char>)
    ensures
        planned_config(req).environment_variables.contains_key(name) <==> (name
            == "SPINNERET_INPUT"@ || match req.env_vars {
            Some(e) => e.contains_key(name),
            None => false,
        }),
{
    reveal_strlit("SPINNERET_INPUT");
}

/// A request that asks for nothing gets 10,000,000 fuel, a 50 MiB memory
/// cap, no worktree and no egress.
pub proof fn lemma_default_limits(req: RequestView)
    requires
        req.fuel_limit is None,
        req.memory_limit is None,
        req.workspace_path is None,
        req.allowed_domains is None,
    ensures
        planned_config(req).fuel_limit == 10_000_000u64,
        planned_config(req).memory_limit_bytes == 52_428_800usize,
        planned_config(req).worktree_mount_path is None,
        planned_config(req).allowed_egress_domains.len() == 0,
        default_config().fuel_limit == 10_000_000u64,
        default_config().memory_limit_bytes == 52_428_800usize,
        default_config().worktree_mount_path is None,
        default_config().allowed_egress_domains.len() == 0,
        default_config().environment_variables.dom().len() == 0,
{
    assert(default_config().environment_variables.dom() =~= Set::<Seq<char>>::empty());
}

} // verus!
