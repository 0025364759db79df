//! The project configuration: network parameters, tooling options, test
//! options, and the autodeploy manifest (the ordered list of deployment
//! steps). Reading and writing the configuration file is the surrounding
//! binary's job; the library defines the data and the documented defaults.

use vstd::prelude::*;
use vstd::string::*;

verus! {

/// Parameters of the chain a project deploys to.
#[derive(Debug, Clone)]
pub struct Network {
    pub profile: String,
    pub chain_id: String,
    pub rpc_url: String,
    pub denom: String,
    pub gas_prices: Option<String>,
}

/// Build tooling options.
#[derive(Debug, Clone)]
pub struct Tooling {
    pub optimizer_backend: String,
}

/// Options of the JavaScript test harness.
#[derive(Debug, Clone)]
pub struct TestConfig {
    pub node_setup_time: u16,
    pub test_container_name: String,
    pub persist_image: bool,
}

/// One step of the autodeploy manifest.
#[derive(Debug, Clone)]
pub struct AutoDeployStep {
    pub id: String,
    pub contract: String,
    pub label: String,
    pub store_only: bool,
    pub migrate_msg: Option<String>,
    pub init_msg: String,
    pub coins: Option<String>,
}

/// The autodeploy manifest: the deploying account, the label-uniqueness
/// flag, and the ordered steps.
#[derive(Debug, Clone)]
pub struct AutoDeploy {
    pub account_id: String,
    pub make_labels_unique: bool,
    pub steps: Vec<AutoDeployStep>,
}

/// The whole project configuration.
#[derive(Debug, Clone)]
pub struct ProjectConfig {
    pub network: Network,
    pub tooling: Tooling,
    pub tests: TestConfig,
    pub autodeploy: AutoDeploy,
}

/// Mathematical image of an `AutoDeployStep`.
pub struct StepView {
    pub id: Seq<char>,
    pub contract: Seq<char>,
    pub label: Seq<char>,
    pub store_only: bool,
    pub migrate_msg: Option<Seq<char>>,
    pub init_msg: Seq<char>,
    pub coins: Option<Seq<char>>,
}

impl View for AutoDeployStep {
    type V = StepView;

    open spec fn view(&self) -> StepView {
        StepView {
            id: self.id@,
            contract: self.contract@,
            label: self.label@,
            store_only: self.store_only,
            migrate_msg: self.migrate_msg.deep_view(),
            init_msg: self.init_msg@,
            coins: self.coins.deep_view(),
        }
    }
}

impl DeepView for AutoDeployStep {
    type V = StepView;

    open spec fn deep_view(&self) -> StepView {
        self.view()
    }
}

impl ProjectConfig {
    /// A configuration with every field blank.
    pub fn empty() -> (c: ProjectConfig)
        ensures
            c.network.profile@ == Seq::<char>::empty(),
            c.network.chain_id@ == Seq::<char>::empty(),
            c.network.rpc_url@ == Seq::<char>::empty(),
            c.network.denom@ == Seq::<char>::empty(),
            c.network.gas_prices is None,
            c.tooling.optimizer_backend@ == Seq::<char>::empty(),
            c.tests.node_setup_time == 0,
            c.tests.test_container_name@ == Seq::<char>::empty(),
            c.tests.persist_image == false,
            c.autodeploy.account_id@ == Seq::<char>::empty(),
            c.autodeploy.make_labels_unique == false,
            c.autodeploy.steps@ == Seq::<AutoDeployStep>::empty(),
    {
        let c = ProjectConfig {
            network: Network {
                profile: String::new(),
                chain_id: String::new(),
                rpc_url: String::new(),
                denom: String::new(),
                gas_prices: None,
            },
            tooling: Tooling { optimizer_backend: String::new() },
            tests: TestConfig {
                node_setup_time: 0,
                test_container_name: String::new(),
                persist_image: false,
            },
            autodeploy: AutoDeploy {
                account_id: String::new(),
                make_labels_unique: false,
                steps: Vec::new(),
            },
        };
        proof {
            assert(c.autodeploy.steps@ =~= Seq::<AutoDeployStep>::empty());
        }
        c
    }

    /// The configuration written into a freshly initialized project: the
    /// given network, default tooling, a test container named after the
    /// project directory, and an empty autodeploy manifest with unique
    /// labels switched on.
    pub fn generated(network: Network, project_dir_name: &str) -> (c: ProjectConfig)
        ensures
            c.network == network,
            c.tooling.optimizer_backend@ == "default"@,
            c.tests.node_setup_time == 8,
            c.tests.test_container_name@ == "secretdev-"@ + project_dir_name@,
            c.tests.persist_image == false,
            c.autodeploy.account_id@ == Seq::<char>::empty(),
            c.autodeploy.make_labels_unique == true,
            c.autodeploy.steps@ == Seq::<AutoDeployStep>::empty(),
    {
        let mut container = "secretdev-".to_owned();
        container.append(project_dir_name);
        let c = ProjectConfig {
            network,
            tooling: Tooling { optimizer_backend: "default".to_owned() },
            tests: TestConfig {
                node_setup_time: 8,
                test_container_name: container,
                persist_image: false,
            },
            autodeploy: AutoDeploy {
                account_id: String::new(),
                make_labels_unique: true,
                steps: Vec::new(),
            },
        };
        proof {
            assert(c.autodeploy.steps@ =~= Seq::<AutoDeployStep>::empty());
        }
        c
    }
}

} // verus!
