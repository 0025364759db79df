use warp_cli::ledger::{DeploymentResult, NetworkDeployments};

fn ledger_with(chain: &str, entries: &[(&str, &str)]) -> DeploymentResult {
    let mut ledger = DeploymentResult::default();
    for (id, addr) in entries {
        ledger.record(chain, id, addr.to_string());
    }
    ledger
}

#[test]
fn empty_ledger_has_no_entries() {
    let ledger = DeploymentResult::default();
    assert!(ledger.deployment.is_empty());
    assert!(!ledger.contains_entry("net-1", "step1"));
    assert!(ledger.address_of("net-1", "step1").is_none());
}

#[test]
fn record_and_read_back() {
    let ledger = ledger_with("net-1", &[("step1", "addr1"), ("step2", "addr2")]);
    assert_eq!(ledger.address_of("net-1", "step1").unwrap(), "addr1");
    assert_eq!(ledger.address_of("net-1", "step2").unwrap(), "addr2");
    assert!(ledger.contains_entry("net-1", "step1"));
    assert!(!ledger.contains_entry("net-2", "step1"));
}

#[test]
fn record_never_overwrites() {
    let mut ledger = ledger_with("net-1", &[("step1", "addr1")]);
    ledger.record("net-1", "step1", "other".to_string());
    assert_eq!(ledger.address_of("net-1", "step1").unwrap(), "addr1");
}

#[test]
fn merge_preserves_other_networks() {
    let mut ledger = ledger_with("net-a", &[("s1", "a1"), ("s2", "a2")]);
    ledger.record("net-b", "s1", "b1".to_string());
    assert_eq!(ledger.address_of("net-a", "s1").unwrap(), "a1");
    assert_eq!(ledger.address_of("net-a", "s2").unwrap(), "a2");
    assert_eq!(ledger.address_of("net-b", "s1").unwrap(), "b1");
    assert!(ledger.address_of("net-b", "s2").is_none());
}

#[test]
fn network_creates_empty_record() {
    let mut ledger = DeploymentResult::default();
    let idx = ledger.network("net-9");
    assert_eq!(ledger.deployment[idx].chain_id, "net-9");
    assert!(ledger.deployment[idx].contracts.is_empty());
    let again = ledger.network("net-9");
    assert_eq!(again, idx);
    assert_eq!(ledger.deployment.len(), 1);
}

#[test]
fn network_deployments_get() {
    let mut nd = NetworkDeployments { chain_id: "n".to_string(), contracts: Vec::new() };
    nd.record("s", "a".to_string());
    nd.record("s", "ignored".to_string());
    assert!(nd.contains_key("s"));
    assert_eq!(nd.get("s").unwrap(), "a");
    assert!(nd.get("t").is_none());
}
