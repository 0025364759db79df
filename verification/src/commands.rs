//! The CLI commands' argument types and the decisions they make. Parsing the
//! command line, prompting for passwords and spawning processes happen in
//! the surrounding binary; what each command decides — which configuration
//! fields change, which contract a wasm call targets, which wallet signs,
//! what a new contract's deployment step looks like — is defined and
//! verified here.

use vstd::prelude::*;
use vstd::string::*;
use crate::config::{AutoDeployStep, Network, ProjectConfig};
use crate::error::WarpError;
use crate::ledger::DeploymentResult;
use crate::text::{sanitize_name, sanitized_name};

verus! {

/// Initialize a new project for a chain.
#[derive(Debug, Clone)]
pub struct InitCommand {
    /// The name of the project's directory.
    pub name: String,
    /// The chain the project targets.
    pub chain: ChainParam,
}

/// The chains a new project can target.
#[derive(Debug, Clone, Copy, PartialEq, Eq, Structural)]
pub enum ChainParam {
    Archway,
    Xion,
}

/// Configure the workspace.
#[derive(Debug, Clone)]
pub struct ConfigCommand {
    pub subcommand: SetSubcommand,
}

/// Set a configuration parameter, or read its current value.
#[derive(Debug, Clone)]
pub enum SetSubcommand {
    Update(ConfigArgs),
    Get(ConfigArgs),
}

/// Which configuration parameters a config command touches.
#[derive(Debug, Clone)]
pub struct ConfigArgs {
    /// Contract optimization backend.
    pub optimizer_backend: Option<OptimizerBackend>,
    /// Switch between the profile's known networks.
    pub network: Option<NetworkConfig>,
}

/// The supported contract optimization backends.
#[derive(Debug, Clone, Copy, PartialEq, Eq, Structural)]
pub enum OptimizerBackend {
    /// The workspace-optimizer docker image.
    Default,
    /// `cw-optimizoor`, which needs no docker.
    CwOptimizoor,
}

/// The networks a profile can be switched to.
#[derive(Debug, Clone, Copy, PartialEq, Eq, Structural)]
pub enum NetworkConfig {
    Mainnet,
    Testnet,
    Local,
}

/// Initialize the frontend of the workspace.
#[derive(Debug, Clone)]
pub struct FrontendCommand {}

/// Scaffold a new contract.
#[derive(Debug, Clone)]
pub struct NewCommand {
    /// The name of the new contract.
    pub name: String,
    /// Customize the contract label.
    pub label: Option<String>,
}

/// Start the local validator node.
#[derive(Debug, Clone)]
pub struct NodeCommand {
    pub detached: bool,
    pub container: Option<String>,
    pub persistant: bool,
}

/// Run the workspace's JavaScript tests.
#[derive(Debug, Clone)]
pub struct TestCommand {
    /// Rebuild the contracts before running tests.
    pub rebuild: bool,
    /// Reuse a running node instead of starting one.
    pub skip_environment: bool,
}

/// Interact with deployed contracts.
#[derive(Debug, Clone)]
pub struct WasmCommand {
    pub subcommand: WasmSubcommand,
}

/// Execute against, or query, a deployed contract.
#[derive(Debug, Clone)]
pub enum WasmSubcommand {
    Execute(WasmExecuteArgs),
    Query(WasmQueryArgs),
}

/// Arguments of a wasm execute call.
#[derive(Debug, Clone)]
pub struct WasmExecuteArgs {
    /// Contract id, as recorded in the ledger.
    pub contract: String,
    /// JSON-serialized contract arguments.
    pub arguments: String,
    pub from: Option<String>,
    pub funds: Option<String>,
    pub yes: Option<bool>,
}

/// Arguments of a wasm query call.
#[derive(Debug, Clone)]
pub struct WasmQueryArgs {
    /// Contract id, as recorded in the ledger.
    pub contract: String,
    /// JSON-serialized contract arguments.
    pub arguments: String,
}

/// The configuration value a backend choice stands for.
pub open spec fn optimizer_value(b: OptimizerBackend) -> Seq<char> {
    match b {
        OptimizerBackend::Default => "default"@,
        OptimizerBackend::CwOptimizoor => "cw-optimizoor"@,
    }
}

impl OptimizerBackend {
    /// The value written into the configuration for this backend.
    pub fn config_value(&self) -> (r: String)
        ensures
            r@ == optimizer_value(*self),
    {
        match self {
            OptimizerBackend::Default => "default".to_owned(),
            OptimizerBackend::CwOptimizoor => "cw-optimizoor".to_owned(),
        }
    }
}

impl ConfigCommand {
    /// Does this command modify values (`set`) rather than read them
    /// (`get`)?
    pub fn modifies(&self) -> (r: bool)
        ensures
            r == (self.subcommand is Update),
    {
        match &self.subcommand {
            SetSubcommand::Update(_) => true,
            SetSubcommand::Get(_) => false,
        }
    }

    /// The arguments the command was given.
    pub fn args(&self) -> (r: &ConfigArgs)
        ensures
            r == match self.subcommand {
                SetSubcommand::Update(a) => a,
                SetSubcommand::Get(a) => a,
            },
    {
        match &self.subcommand {
            SetSubcommand::Update(a) => a,
            SetSubcommand::Get(a) => a,
        }
    }

    /// Apply a `set` command to the configuration: the optimizer backend
    /// and/or the network parameters change exactly when the command names
    /// them; a `get` command, or an unnamed parameter, changes nothing.
    /// `network_params` are the profile's parameters for the requested
    /// network, resolved by the caller.
    pub fn apply(&self, config: &mut ProjectConfig, network_params: Option<Network>)
        ensures
            final(config).tooling.optimizer_backend@ == match self.subcommand {
                SetSubcommand::Update(a) => if a.optimizer_backend is Some {
                    optimizer_value(a.optimizer_backend->0)
                } else {
                    old(config).tooling.optimizer_backend@
                },
                SetSubcommand::Get(_) => old(config).tooling.optimizer_backend@,
            },
            final(config).network == match self.subcommand {
                SetSubcommand::Update(a) => if a.network is Some && network_params is Some {
                    network_params->0
                } else {
                    old(config).network
                },
                SetSubcommand::Get(_) => old(config).network,
            },
            final(config).tests == old(config).tests,
            final(config).autodeploy == old(config).autodeploy,
    {
        let modify = self.modifies();
        let args = self.args();
        if modify {
            if let Some(backend) = &args.optimizer_backend {
                config.tooling.optimizer_backend = backend.config_value();
            }
            if args.network.is_some() {
                if let Some(params) = network_params {
                    config.network = params;
                }
            }
        }
    }
}

impl WasmCommand {
    /// The contract id the command targets.
    pub fn contract_id(&self) -> (r: &String)
        ensures
            r@ == match self.subcommand {
                WasmSubcommand::Execute(a) => a.contract@,
                WasmSubcommand::Query(a) => a.contract@,
            },
    {
        match &self.subcommand {
            WasmSubcommand::Execute(a) => &a.contract,
            WasmSubcommand::Query(a) => &a.contract,
        }
    }

    /// Translate the targeted contract id into the address the ledger
    /// records for the current network; an id without a recorded address is
    /// an error naming that id.
    pub fn resolve_contract_address(
        &self,
        deployments: &DeploymentResult,
        chain_id: &str,
    ) -> (r: Result<String, WarpError>)
        requires
            deployments.wf(),
        ensures
            ({
                let id = match self.subcommand {
                    WasmSubcommand::Execute(a) => a.contract@,
                    WasmSubcommand::Query(a) => a.contract@,
                };
                match r {
                    Ok(addr) => deployments@.contains_key(chain_id@) && deployments@[chain_id@].contains_key(id)
                        && addr@ == deployments@[chain_id@][id],
                    Err(e) => !(deployments@.contains_key(chain_id@)
                        && deployments@[chain_id@].contains_key(id)) && (e matches WarpError::ContractIdNotFound(c)
                        && c@ == id),
                }
            }),
    {
        let id = self.contract_id();
        match deployments.address_of(chain_id, id.as_str()) {
            Some(addr) => Ok(addr),
            None => Err(WarpError::ContractIdNotFound(id.clone())),
        }
    }
}

/// The wallet an execute call signs with: the explicit `--from` argument, or
/// the configured deployment account; an empty choice is an error.
pub fn choose_wallet(from: &Option<String>, account_id: &String) -> (r: Result<String, WarpError>)
    ensures
        ({
            let chosen = match from {
                Some(f) => f@,
                None => account_id@,
            };
            match r {
                Ok(w) => chosen.len() > 0 && w@ == chosen,
                Err(e) => chosen.len() == 0 && e == WarpError::UnspecifiedWallet,
            }
        }),
{
    let chosen: String = match from {
        Some(f) => f.clone(),
        None => account_id.clone(),
    };
    if chosen.as_str().unicode_len() == 0 {
        Err(WarpError::UnspecifiedWallet)
    } else {
        Ok(chosen)
    }
}

impl NewCommand {
    /// Make a contract name safe for paths: non-word characters become
    /// underscores, underscores are trimmed from the ends, the rest is
    /// lowercased.
    pub fn optimize_for_path(s: &str) -> (r: Result<String, WarpError>)
        ensures
            r matches Ok(v) && v@ == sanitized_name(s@),
    {
        Ok(sanitize_name(s))
    }

    /// The autodeploy step appended for a new contract: id `$_<name>`,
    /// artifact `artifacts/<name>.wasm`, the given label (or the name), and
    /// a fresh owner-message template.
    pub fn deploy_step(&self) -> (r: AutoDeployStep)
        ensures
            r.id@ == "$_"@ + self.name@,
            r.contract@ == "artifacts/"@ + self.name@ + ".wasm"@,
            r.label@ == match self.label {
                Some(l) => l@,
                None => self.name@,
            },
            r.store_only == false,
            r.init_msg@ == "{ \"owner\": \"$account_id\", \"message\": \"\" }"@,
            r.migrate_msg matches Some(m) && m@ == "{}"@,
            r.coins is None,
    {
        let mut id = "$_".to_owned();
        id.append(self.name.as_str());
        let mut contract = "artifacts/".to_owned();
        contract.append(self.name.as_str());
        contract.append(".wasm");
        proof {
            assert(contract@ =~= "artifacts/"@ + self.name@ + ".wasm"@);
        }
        let label: String = match &self.label {
            Some(l) => l.clone(),
            None => self.name.clone(),
        };
        AutoDeployStep {
            id,
            contract,
            label,
            store_only: false,
            init_msg: "{ \"owner\": \"$account_id\", \"message\": \"\" }".to_owned(),
            migrate_msg: Some("{}".to_owned()),
            coins: None,
        }
    }
}

impl TestCommand {
    /// A node startup failure during the test run is treated as a possible
    /// container-name conflict, answered by restarting the old container.
    pub fn is_possible_conflict(e: &WarpError) -> (r: bool)
        ensures
            r == (e matches WarpError::NodeStartupError(_)),
    {
        match e {
            WarpError::NodeStartupError(_) => true,
            _ => false,
        }
    }
}

impl NodeCommand {
    /// Adjust the node's docker invocation: a non-persistent container is
    /// removed on exit (`--rm` after the first two tokens), and a detached
    /// run gets `-d` right after the command word.
    pub fn adjust_docker_args(&self, args: Vec<String>) -> (r: Vec<String>)
        requires
            args@.len() >= 2,
        ensures
            r.deep_view() == ({
                let a1 = if !self.persistant {
                    args.deep_view().insert(2, "--rm"@)
                } else {
                    args.deep_view()
                };
                if self.detached {
                    a1.insert(1, "-d"@)
                } else {
                    a1
                }
            }),
    {
        let ghost a0 = args.deep_view();
        let mut args = args;
        if !self.persistant {
            args.insert(2, "--rm".to_owned());
            proof {
                assert(args.deep_view() =~= a0.insert(2, "--rm"@));
            }
        }
        let ghost a1 = args.deep_view();
        if self.detached {
            args.insert(1, "-d".to_owned());
            proof {
                assert(args.deep_view() =~= a1.insert(1, "-d"@));
            }
        }
        args
    }
}

} // verus!
