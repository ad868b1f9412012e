use xcargo::target::Target;
use xcargo::toolchain::{parse_target_list, parse_toolchain_list, Toolchain, ToolchainManager};

fn listing() -> Vec<Toolchain> {
    vec![
        Toolchain { name: "nightly-x86_64-unknown-linux-gnu".to_string(), is_default: false, targets: vec![] },
        Toolchain { name: "stable-x86_64-unknown-linux-gnu".to_string(), is_default: true, targets: vec![] },
    ]
}

#[test]
fn test_new_toolchain_manager() {
    let manager = ToolchainManager::new();
    assert!(manager.is_ok());
}

#[test]
fn test_get_default_toolchain() {
    let manager = ToolchainManager::new().unwrap();
    let default_toolchain = manager.get_default_toolchain(listing());
    assert_eq!(default_toolchain.unwrap().name, "stable-x86_64-unknown-linux-gnu");
    assert!(manager.get_default_toolchain(vec![]).is_none());
}

#[test]
fn test_is_toolchain_installed() {
    let manager = ToolchainManager::new().unwrap();
    assert!(manager.is_toolchain_installed(&listing(), "stable"));
    assert!(!manager.is_toolchain_installed(&listing(), "beta"));
}

#[test]
fn test_is_target_installed() {
    let manager = ToolchainManager::new().unwrap();
    let installed = vec!["x86_64-unknown-linux-gnu".to_string()];
    assert!(manager.is_target_installed(&installed, "x86_64-unknown-linux-gnu"));
    assert!(!manager.is_target_installed(&installed, "aarch64-unknown-linux-gnu"));
}

#[test]
fn ensure_steps_only_for_missing_pieces() {
    let manager = ToolchainManager::new().unwrap();
    let installed = vec!["x86_64-unknown-linux-gnu".to_string()];
    assert_eq!(manager.ensure_target(&installed, "stable", "x86_64-unknown-linux-gnu"), None);
    assert_eq!(
        manager.ensure_target(&installed, "stable", "aarch64-unknown-linux-gnu"),
        Some(vec![
            "target".to_string(),
            "add".to_string(),
            "aarch64-unknown-linux-gnu".to_string(),
            "--toolchain".to_string(),
            "stable".to_string()
        ])
    );
    assert_eq!(
        manager.ensure_toolchain(&listing(), "beta"),
        Some(vec!["toolchain".to_string(), "install".to_string(), "beta".to_string()])
    );
    let target = Target::from_triple("aarch64-unknown-linux-gnu").unwrap();
    assert_eq!(manager.prepare_target(&listing(), &installed, "stable", &target).len(), 1);
    assert_eq!(manager.prepare_target(&listing(), &installed, "beta", &target).len(), 2);
}

#[test]
fn listing_arguments() {
    let manager = ToolchainManager::new().unwrap();
    assert_eq!(manager.rustup_path(), "rustup");
    assert_eq!(manager.list_toolchains_args(), vec!["toolchain", "list"]);
    assert_eq!(
        manager.list_targets_args("stable"),
        vec!["target", "list", "--installed", "--toolchain", "stable"]
    );
}

#[test]
fn toolchain_listing_is_parsed() {
    let text = "stable-x86_64-unknown-linux-gnu (default)\n\n  nightly-x86_64-unknown-linux-gnu  \n";
    let list = parse_toolchain_list(text);
    assert_eq!(list.len(), 2);
    assert_eq!(list[0].name, "stable-x86_64-unknown-linux-gnu");
    assert!(list[0].is_default);
    assert_eq!(list[1].name, "nightly-x86_64-unknown-linux-gnu");
    assert!(!list[1].is_default);
}

#[test]
fn target_listing_is_parsed() {
    assert_eq!(
        parse_target_list("x86_64-unknown-linux-gnu\r\n \n wasm32-unknown-unknown"),
        vec!["x86_64-unknown-linux-gnu", "wasm32-unknown-unknown"]
    );
    assert!(parse_target_list("").is_empty());
}

#[test]
fn host_triple_is_read_from_the_report() {
    let report = "rustc 1.80.0 (abc 2024-07-21)\nbinary: rustc\nhost: aarch64-apple-darwin\nrelease: 1.80.0\n";
    assert_eq!(Target::host_triple_from(report), Some("aarch64-apple-darwin".to_string()));
    assert_eq!(Target::host_triple_from("binary: rustc\n"), None);
}

#[test]
fn prepare_steps_come_in_order() {
    let manager = ToolchainManager::new().unwrap();
    let target = Target::from_triple("aarch64-unknown-linux-gnu").unwrap();
    let steps = manager.prepare_target(&listing(), &vec![], "beta", &target);
    assert_eq!(steps[0], vec!["toolchain", "install", "beta"]);
    assert_eq!(steps[1], vec!["target", "add", "aarch64-unknown-linux-gnu", "--toolchain", "beta"]);
}

#[test]
fn listing_trims_unicode_white_space() {
    assert_eq!(parse_target_list("\u{3000}a-b-c\t\n\u{a0}\n"), vec!["a-b-c"]);
}
