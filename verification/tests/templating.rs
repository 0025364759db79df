use warp_cli::commands::NewCommand;
use warp_cli::config::AutoDeployStep;
use warp_cli::deploy::{AutoDeployCommand, DeploymentTask, make_label, make_migrate_msg};
use warp_cli::text::u64_to_string;

fn step_with_id(id: &str) -> AutoDeployStep {
    AutoDeployStep {
        id: id.to_string(),
        contract: "artifacts/demo.wasm".to_string(),
        label: "demo".to_string(),
        store_only: false,
        migrate_msg: None,
        init_msg: String::new(),
        coins: None,
    }
}

#[test]
fn path_test() {
    let paths = vec![
        ("path-to-file", "path_to_file"),
        ("path to file 2", "path_to_file_2"),
        (r"path/to\file", "path_to_file"),
        ("Path[]tO][file()", "path__to__file"),
        ("path_to_file", "path_to_file"),
    ];
    for path in paths.iter() {
        let result = NewCommand::optimize_for_path(path.0).unwrap();
        assert_eq!(path.1, result);
    }
}

#[test]
fn template_substitution() {
    let tasks = vec![DeploymentTask {
        step: step_with_id("step1"),
        code_id: Some("7".to_string()),
        contract_address: Some("addr1".to_string()),
    }];
    let resolved = AutoDeployCommand::format_init_message(
        "{\"owner\":\"$account_id\",\"ref\":\"$step1\",\"code\":\"#step1\"}",
        &tasks,
        "addr0",
    );
    assert_eq!(resolved, "{\"owner\":\"addr0\",\"ref\":\"addr1\",\"code\":\"7\"}");
}

#[test]
fn unresolved_reference_becomes_empty() {
    let tasks = vec![DeploymentTask {
        step: step_with_id("step1"),
        code_id: Some("7".to_string()),
        contract_address: None,
    }];
    let resolved = AutoDeployCommand::format_init_message("ref=$step1;code=#step1", &tasks, "a");
    assert_eq!(resolved, "ref=;code=7");
}

#[test]
fn account_id_replaced_before_tasks() {
    let tasks = vec![DeploymentTask {
        step: step_with_id("x"),
        code_id: Some("3".to_string()),
        contract_address: Some("ax".to_string()),
    }];
    let resolved = AutoDeployCommand::format_init_message(
        "$account_id/$x/#x/$account_id",
        &tasks,
        "me",
    );
    assert_eq!(resolved, "me/ax/3/me");
}

#[test]
fn repeated_tokens_all_replaced() {
    let tasks = vec![DeploymentTask {
        step: step_with_id("s"),
        code_id: Some("1".to_string()),
        contract_address: Some("A".to_string()),
    }];
    let resolved = AutoDeployCommand::format_init_message("$s$s$s", &tasks, "n");
    assert_eq!(resolved, "AAA");
}

#[test]
fn labels_suffixed_when_unique() {
    assert_eq!(make_label("counter", true, 1700000000), "counter-1700000000");
    assert_eq!(make_label("counter", false, 1700000000), "counter");
}

#[test]
fn decimal_rendering() {
    assert_eq!(u64_to_string(0), "0");
    assert_eq!(u64_to_string(9), "9");
    assert_eq!(u64_to_string(10), "10");
    assert_eq!(u64_to_string(1234567890), "1234567890");
    assert_eq!(u64_to_string(u64::MAX), "18446744073709551615");
}

#[test]
fn migrate_message_defaults_to_empty_object() {
    let mut step = step_with_id("s");
    assert_eq!(make_migrate_msg(&step), "{}");
    step.migrate_msg = Some("{\"v\":2}".to_string());
    assert_eq!(make_migrate_msg(&step), "{\"v\":2}");
}
