//! The supported chain profiles and the command lines they drive. Each
//! profile knows how to phrase the arguments of its chain binary — the
//! common flags, and the per-operation argument lists for storing,
//! instantiating, executing, migrating and querying contracts. Spawning the
//! processes is the surrounding binary's job; what gets passed to them is
//! decided, and verified, here.

use vstd::prelude::*;
use vstd::string::*;
use crate::config::{Network, ProjectConfig};
use crate::commands::NetworkConfig;
use crate::tx::{TxQueryResponse, TxView};

verus! {

/// The Archway profile, driving `archwayd`.
#[derive(Debug, Clone, Copy)]
pub struct ArchwayProfile;

/// The Secret Network profile, driving `secretcli`.
#[derive(Debug, Clone, Copy)]
pub struct SecretNetworkProfile;

/// The Xion profile, driving `xiond`.
#[derive(Debug, Clone, Copy)]
pub struct XionProfile;

/// The common flags of an `archwayd`-style invocation: output format,
/// network selection, and — for transactions — confirmation, gas settings
/// and the gas price quoted by the chain's fee estimator.
pub open spec fn archway_common_args(
    tx: bool,
    network: bool,
    store: bool,
    chain_id: Seq<char>,
    rpc_url: Seq<char>,
    gas_price: Seq<char>,
) -> Seq<Seq<char>> {
    seq!["--output"@, "json"@] + (if network {
        seq!["--chain-id"@, chain_id, "--node"@, rpc_url]
    } else {
        Seq::<Seq<char>>::empty()
    }) + (if tx {
        seq![
            "-y"@,
            "-b"@,
            "block"@,
            "--gas"@,
            "auto"@,
            "--gas-adjustment"@,
            (if store {
                "2"@
            } else {
                "1.4"@
            }),
            "--gas-prices"@,
            gas_price,
        ]
    } else {
        Seq::<Seq<char>>::empty()
    })
}

/// The common flags of a `secretcli` invocation; gas settings apply only to
/// store transactions, priced by the configured gas price or the documented
/// default.
pub open spec fn secret_common_args(
    tx: bool,
    network: bool,
    store: bool,
    chain_id: Seq<char>,
    rpc_url: Seq<char>,
    gas_prices: Option<Seq<char>>,
) -> Seq<Seq<char>> {
    seq!["--output"@, "json"@] + (if network {
        seq!["--node"@, rpc_url, "--chain-id"@, chain_id]
    } else {
        Seq::<Seq<char>>::empty()
    }) + (if tx {
        seq!["-y"@, "-b"@, "block"@]
    } else {
        Seq::<Seq<char>>::empty()
    }) + (if store {
        seq![
            "--gas"@,
            "auto"@,
            "--gas-adjustment"@,
            "2"@,
            "--gas-prices"@,
            (match gas_prices {
                Some(g) => g,
                None => "0.0125uscrt"@,
            }),
        ]
    } else {
        Seq::<Seq<char>>::empty()
    })
}

/// The common flags of a `xiond` invocation: the `archwayd` shape, priced by
/// the configured gas price or the documented default.
pub open spec fn xion_common_args(
    tx: bool,
    network: bool,
    store: bool,
    chain_id: Seq<char>,
    rpc_url: Seq<char>,
    gas_prices: Option<Seq<char>>,
) -> Seq<Seq<char>> {
    archway_common_args(
        tx,
        network,
        store,
        chain_id,
        rpc_url,
        match gas_prices {
            Some(g) => g,
            None => "0.00025uxion"@,
        },
    )
}

/// Build the common `archwayd` flags; the gas price is quoted beforehand by
/// the chain's fee estimator and passed in.
pub fn get_common_cli_args(
    tx: bool,
    network: bool,
    store: bool,
    config: &ProjectConfig,
    gas_price: &str,
) -> (r: Vec<String>)
    ensures
        r.deep_view() == archway_common_args(
            tx,
            network,
            store,
            config.network.chain_id@,
            config.network.rpc_url@,
            gas_price@,
        ),
{
    let mut args: Vec<String> = Vec::new();
    args.push("--output".to_owned());
    args.push("json".to_owned());
    if network {
        args.push("--chain-id".to_owned());
        args.push(config.network.chain_id.clone());
        args.push("--node".to_owned());
        args.push(config.network.rpc_url.clone());
    }
    if tx {
        args.push("-y".to_owned());
        args.push("-b".to_owned());
        args.push("block".to_owned());
        args.push("--gas".to_owned());
        args.push("auto".to_owned());
        args.push("--gas-adjustment".to_owned());
        if store {
            args.push("2".to_owned());
        } else {
            args.push("1.4".to_owned());
        }
        args.push("--gas-prices".to_owned());
        args.push(gas_price.to_owned());
    }
    proof {
        assert(args.deep_view() =~= archway_common_args(
            tx,
            network,
            store,
            config.network.chain_id@,
            config.network.rpc_url@,
            gas_price@,
        ));
    }
    args
}

impl ArchwayProfile {
    /// The common `archwayd` flags.
    pub fn get_common_cli_args(
        &self,
        tx: bool,
        network: bool,
        store: bool,
        config: &ProjectConfig,
        gas_price: &str,
    ) -> (r: Vec<String>)
        ensures
            r.deep_view() == archway_common_args(
                tx,
                network,
                store,
                config.network.chain_id@,
                config.network.rpc_url@,
                gas_price@,
            ),
    {
        get_common_cli_args(tx, network, store, config, gas_price)
    }
}

impl SecretNetworkProfile {
    /// The name of this profile in the project configuration.
    pub fn get_profile_name(&self) -> (r: String)
        ensures
            r@ == "scrt"@,
    {
        "scrt".to_owned()
    }

    /// The common `secretcli` flags.
    pub fn get_common_cli_args(
        &self,
        tx: bool,
        network: bool,
        store: bool,
        config: &ProjectConfig,
    ) -> (r: Vec<String>)
        ensures
            r.deep_view() == secret_common_args(
                tx,
                network,
                store,
                config.network.chain_id@,
                config.network.rpc_url@,
                config.network.gas_prices.deep_view(),
            ),
    {
        let mut args: Vec<String> = Vec::new();
        args.push("--output".to_owned());
        args.push("json".to_owned());
        if network {
            args.push("--node".to_owned());
            args.push(config.network.rpc_url.clone());
            args.push("--chain-id".to_owned());
            args.push(config.network.chain_id.clone());
        }
        if tx {
            args.push("-y".to_owned());
            args.push("-b".to_owned());
            args.push("block".to_owned());
        }
        if store {
            args.push("--gas".to_owned());
            args.push("auto".to_owned());
            args.push("--gas-adjustment".to_owned());
            args.push("2".to_owned());
            args.push("--gas-prices".to_owned());
            match &config.network.gas_prices {
                Some(g) => args.push(g.clone()),
                None => args.push("0.0125uscrt".to_owned()),
            }
        }
        proof {
            assert(args.deep_view() =~= secret_common_args(
                tx,
                network,
                store,
                config.network.chain_id@,
                config.network.rpc_url@,
                config.network.gas_prices.deep_view(),
            ));
        }
        args
    }

    /// The network parameters this profile offers for each selectable
    /// network.
    pub fn network_params(&self, network_config: &NetworkConfig) -> (r: Network)
        ensures
            r.profile@ == "scrt"@,
            r.denom@ == "uscrt"@ || r.denom@ == "uscrtx"@,
            r.gas_prices matches Some(g) && g@ == "0.0125uscrt"@,
            network_config is Mainnet ==> r.chain_id@ == "secret-3"@,
            network_config is Testnet ==> r.chain_id@ == "pulsar-3"@,
            network_config is Local ==> r.chain_id@ == "secretdev-1"@,
    {
        match network_config {
            NetworkConfig::Mainnet => Network {
                profile: self.get_profile_name(),
                chain_id: "secret-3".to_owned(),
                rpc_url: "https://secretnetwork-rpc.lavenderfive.com:443".to_owned(),
                denom: "uscrt".to_owned(),
                gas_prices: Some("0.0125uscrt".to_owned()),
            },
            NetworkConfig::Testnet => Network {
                profile: self.get_profile_name(),
                chain_id: "pulsar-3".to_owned(),
                rpc_url: "https://rpc.pulsar-3.secretsaturn.net".to_owned(),
                denom: "uscrt".to_owned(),
                gas_prices: Some("0.0125uscrt".to_owned()),
            },
            NetworkConfig::Local => Network {
                profile: self.get_profile_name(),
                chain_id: "secretdev-1".to_owned(),
                rpc_url: "http://localhost:26657".to_owned(),
                denom: "uscrtx".to_owned(),
                gas_prices: Some("0.0125uscrt".to_owned()),
            },
        }
    }

    /// The address a Secret instantiate transaction reports: the last
    /// attribute of the second event of the first log, when present.
    pub fn get_initialized_address(&self, tx: &TxQueryResponse) -> (r: Option<String>)
        ensures
            r is Some <==> secret_initialized_address(tx@) is Some,
            r matches Some(v) ==> secret_initialized_address(tx@) == Some(v@),
    {
        if tx.logs.len() == 0 {
            return None;
        }
        let log = &tx.logs[0];
        if log.events.len() < 2 {
            return None;
        }
        let ev = &log.events[1];
        if ev.attributes.len() == 0 {
            return None;
        }
        Some(ev.attributes[ev.attributes.len() - 1].value.clone())
    }
}

/// The address reported by a Secret instantiate transaction: the last
/// attribute of the second event of the first log.
pub open spec fn secret_initialized_address(tx: TxView) -> Option<Seq<char>> {
    if tx.logs.len() > 0 && tx.logs[0].events.len() >= 2 && tx.logs[0].events[1].attributes.len()
        > 0 {
        Some(tx.logs[0].events[1].attributes.last().value)
    } else {
        None
    }
}

impl XionProfile {
    /// The name of this profile in the project configuration.
    pub fn get_profile_name(&self) -> (r: String)
        ensures
            r@ == "xion"@,
    {
        "xion".to_owned()
    }

    /// The common `xiond` flags.
    pub fn get_common_cli_args(
        &self,
        tx: bool,
        network: bool,
        store: bool,
        config: &ProjectConfig,
    ) -> (r: Vec<String>)
        ensures
            r.deep_view() == xion_common_args(
                tx,
                network,
                store,
                config.network.chain_id@,
                config.network.rpc_url@,
                config.network.gas_prices.deep_view(),
            ),
    {
        let gas_price: String = match &config.network.gas_prices {
            Some(g) => g.clone(),
            None => "0.00025uxion".to_owned(),
        };
        get_common_cli_args(tx, network, store, config, gas_price.as_str())
    }

    /// The network parameters this profile offers; the mainnet is not
    /// supported yet.
    pub fn network_params(&self, network_config: &NetworkConfig) -> (r: Network)
        requires
            !(network_config is Mainnet),
        ensures
            r.profile@ == "xion"@,
            r.chain_id@ == "xion-local-testnet-1"@,
            r.denom@ == "uxion"@,
            network_config is Testnet ==> (r.gas_prices matches Some(g) && g@ == "0uxion"@),
            network_config is Local ==> (r.gas_prices matches Some(g) && g@ == "0.00025uxion"@),
    {
        match network_config {
            NetworkConfig::Testnet => Network {
                profile: self.get_profile_name(),
                chain_id: "xion-local-testnet-1".to_owned(),
                rpc_url: "https://rpc.xion-testnet-1.burnt.com:443".to_owned(),
                denom: "uxion".to_owned(),
                gas_prices: Some("0uxion".to_owned()),
            },
            _ => Network {
                profile: self.get_profile_name(),
                chain_id: "xion-local-testnet-1".to_owned(),
                rpc_url: "".to_owned(),
                denom: "uxion".to_owned(),
                gas_prices: Some("0.00025uxion".to_owned()),
            },
        }
    }
}

/// `tx <module> store <contract> --from <from>` — the leading arguments of a
/// store transaction.
pub open spec fn store_args_model(module: Seq<char>, contract: Seq<char>, from: Seq<char>) -> Seq<
    Seq<char>,
> {
    seq!["tx"@, module, "store"@, contract, "--from"@, from]
}

/// The leading arguments of an instantiate transaction.
pub open spec fn instantiate_args_model(
    module: Seq<char>,
    code_id: Seq<char>,
    init_msg: Seq<char>,
    from: Seq<char>,
    label: Seq<char>,
    coins: Option<Seq<char>>,
    admin: Seq<char>,
) -> Seq<Seq<char>> {
    seq![
        "tx"@,
        module,
        "instantiate"@,
        code_id,
        init_msg,
        "--from"@,
        from,
        "--label"@,
        label,
        "--amount"@,
        (match coins {
            Some(c) => c,
            None => Seq::<char>::empty(),
        }),
        "--admin"@,
        admin,
    ]
}

/// The leading arguments of an execute transaction.
pub open spec fn execute_args_model(
    module: Seq<char>,
    contract_address: Seq<char>,
    msg: Seq<char>,
    from: Seq<char>,
) -> Seq<Seq<char>> {
    seq!["tx"@, module, "execute"@, contract_address, msg, "--from"@, from]
}

/// The leading arguments of a migrate transaction.
pub open spec fn migrate_args_model(
    module: Seq<char>,
    contract_address: Seq<char>,
    code_id: Seq<char>,
    migrate_msg: Seq<char>,
    from: Seq<char>,
) -> Seq<Seq<char>> {
    seq!["tx"@, module, "migrate"@, contract_address, code_id, migrate_msg, "--from"@, from]
}

/// Build the leading arguments of a store transaction.
pub fn store_args(module: &str, contract: &str, from: &str) -> (r: Vec<String>)
    ensures
        r.deep_view() == store_args_model(module@, contract@, from@),
{
    let mut args: Vec<String> = Vec::new();
    args.push("tx".to_owned());
    args.push(module.to_owned());
    args.push("store".to_owned());
    args.push(contract.to_owned());
    args.push("--from".to_owned());
    args.push(from.to_owned());
    proof {
        assert(args.deep_view() =~= store_args_model(module@, contract@, from@));
    }
    args
}

/// Build the leading arguments of an instantiate transaction.
pub fn instantiate_args(
    module: &str,
    code_id: &str,
    init_msg: &str,
    from: &str,
    label: &str,
    coins: &Option<String>,
    admin: &str,
) -> (r: Vec<String>)
    ensures
        r.deep_view() == instantiate_args_model(
            module@,
            code_id@,
            init_msg@,
            from@,
            label@,
            coins.deep_view(),
            admin@,
        ),
{
    proof {
        reveal_strlit("");
        assert(""@ =~= Seq::<char>::empty());
    }
    let mut args: Vec<String> = Vec::new();
    args.push("tx".to_owned());
    args.push(module.to_owned());
    args.push("instantiate".to_owned());
    args.push(code_id.to_owned());
    args.push(init_msg.to_owned());
    args.push("--from".to_owned());
    args.push(from.to_owned());
    args.push("--label".to_owned());
    args.push(label.to_owned());
    args.push("--amount".to_owned());
    match coins {
        Some(c) => args.push(c.clone()),
        None => args.push("".to_owned()),
    }
    args.push("--admin".to_owned());
    args.push(admin.to_owned());
    proof {
        assert(args.deep_view() =~= instantiate_args_model(
            module@,
            code_id@,
            init_msg@,
            from@,
            label@,
            coins.deep_view(),
            admin@,
        ));
    }
    args
}

/// Build the leading arguments of an execute transaction.
pub fn execute_args(module: &str, contract_address: &str, msg: &str, from: &str) -> (r: Vec<
    String,
>)
    ensures
        r.deep_view() == execute_args_model(module@, contract_address@, msg@, from@),
{
    let mut args: Vec<String> = Vec::new();
    args.push("tx".to_owned());
    args.push(module.to_owned());
    args.push("execute".to_owned());
    args.push(contract_address.to_owned());
    args.push(msg.to_owned());
    args.push("--from".to_owned());
    args.push(from.to_owned());
    proof {
        assert(args.deep_view() =~= execute_args_model(module@, contract_address@, msg@, from@));
    }
    args
}

/// Build the leading arguments of a migrate transaction.
pub fn migrate_args(
    module: &str,
    contract_address: &str,
    code_id: &str,
    migrate_msg: &str,
    from: &str,
) -> (r: Vec<String>)
    ensures
        r.deep_view() == migrate_args_model(
            module@,
            contract_address@,
            code_id@,
            migrate_msg@,
            from@,
        ),
{
    let mut args: Vec<String> = Vec::new();
    args.push("tx".to_owned());
    args.push(module.to_owned());
    args.push("migrate".to_owned());
    args.push(contract_address.to_owned());
    args.push(code_id.to_owned());
    args.push(migrate_msg.to_owned());
    args.push("--from".to_owned());
    args.push(from.to_owned());
    proof {
        assert(args.deep_view() =~= migrate_args_model(
            module@,
            contract_address@,
            code_id@,
            migrate_msg@,
            from@,
        ));
    }
    args
}

/// Build the arguments of a transaction query: `q tx <hash>`.
pub fn query_tx_args(tx_hash: &str) -> (r: Vec<String>)
    ensures
        r.deep_view() == seq!["q"@, "tx"@, tx_hash@],
{
    let mut args: Vec<String> = Vec::new();
    args.push("q".to_owned());
    args.push("tx".to_owned());
    args.push(tx_hash.to_owned());
    proof {
        assert(args.deep_view() =~= seq!["q"@, "tx"@, tx_hash@]);
    }
    args
}

/// Build the arguments of a key lookup: `keys show <account>`.
pub fn keys_show_args(account_id: &str) -> (r: Vec<String>)
    ensures
        r.deep_view() == seq!["keys"@, "show"@, account_id@],
{
    let mut args: Vec<String> = Vec::new();
    args.push("keys".to_owned());
    args.push("show".to_owned());
    args.push(account_id.to_owned());
    proof {
        assert(args.deep_view() =~= seq!["keys"@, "show"@, account_id@]);
    }
    args
}

/// Build the arguments of a smart query against a deployed contract, in the
/// `archwayd`/`xiond` phrasing.
pub fn query_contract_smart_args(contract: &str, query: &str) -> (r: Vec<String>)
    ensures
        r.deep_view() == seq![
            "q"@,
            "wasm"@,
            "contract-state"@,
            "smart"@,
            contract@,
            query@,
        ],
{
    let mut args: Vec<String> = Vec::new();
    args.push("q".to_owned());
    args.push("wasm".to_owned());
    args.push("contract-state".to_owned());
    args.push("smart".to_owned());
    args.push(contract.to_owned());
    args.push(query.to_owned());
    proof {
        assert(args.deep_view() =~= seq![
            "q"@,
            "wasm"@,
            "contract-state"@,
            "smart"@,
            contract@,
            query@,
        ]);
    }
    args
}

/// Build the arguments of a smart query in the `secretcli` phrasing.
pub fn secret_query_contract_args(contract: &str, query: &str) -> (r: Vec<String>)
    ensures
        r.deep_view() == seq!["q"@, "compute"@, "query"@, contract@, query@],
{
    let mut args: Vec<String> = Vec::new();
    args.push("q".to_owned());
    args.push("compute".to_owned());
    args.push("query".to_owned());
    args.push(contract.to_owned());
    args.push(query.to_owned());
    proof {
        assert(args.deep_view() =~= seq!["q"@, "compute"@, "query"@, contract@, query@]);
    }
    args
}

/// Build the arguments of the estimate-fees query of `archwayd`.
pub fn estimate_fees_args() -> (r: Vec<String>)
    ensures
        r.deep_view() == seq!["q"@, "rewards"@, "estimate-fees"@, "1"@],
{
    let mut args: Vec<String> = Vec::new();
    args.push("q".to_owned());
    args.push("rewards".to_owned());
    args.push("estimate-fees".to_owned());
    args.push("1".to_owned());
    proof {
        assert(args.deep_view() =~= seq!["q"@, "rewards"@, "estimate-fees"@, "1"@]);
    }
    args
}

} // verus!
