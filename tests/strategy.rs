use xcargo::config::{Config, TargetCustomConfig};
use xcargo::container::RuntimeType;
use xcargo::strategy::{BuildOptions, BuildSummary, Builder, CargoOperation, Strategy, WrapperMode};
use xcargo::target::Target;
use xcargo::zig::ZigToolchain;
use xcargo::Error;

fn linux_host() -> Target {
    Target::from_triple("x86_64-unknown-linux-gnu").unwrap()
}

fn zig() -> Option<ZigToolchain> {
    Some(ZigToolchain::new("/usr/bin/zig".to_string(), "0.13.0".to_string(), "/cache".to_string()))
}

fn options_for(target: &str) -> BuildOptions {
    BuildOptions { target: Some(target.to_string()), ..BuildOptions::default() }
}

#[test]
fn test_builder_new() {
    let builder = Builder::new(linux_host(), None);
    assert!(builder.is_ok());
}

#[test]
fn native_same_os_scenario() {
    let builder = Builder::new(linux_host(), zig()).unwrap();
    let plan = builder.plan_build(&options_for("x86_64-unknown-linux-gnu")).unwrap();
    assert_eq!(plan.target.tier, xcargo::target::TargetTier::Native);
    assert_eq!(plan.strategy, Strategy::Native);
    assert_eq!(plan.linker, None);
    assert!(plan.env.is_empty());
    assert_eq!(plan.args, vec!["build", "--target", "x86_64-unknown-linux-gnu"]);
}

#[test]
fn container_request_overrides_everything() {
    let builder = Builder::new(linux_host(), zig()).unwrap();
    for use_zig in [None, Some(true), Some(false)] {
        let options = BuildOptions {
            use_container: true,
            use_zig,
            release: true,
            verbose: true,
            cargo_args: vec!["--locked".to_string()],
            ..options_for("x86_64-pc-windows-gnu")
        };
        let plan = builder.plan_build(&options).unwrap();
        assert_eq!(plan.strategy, Strategy::Container);
        let request = plan.container.unwrap();
        assert_eq!(request.runtime, RuntimeType::Auto);
        assert_eq!(request.cargo_args, vec!["--verbose", "--release", "--locked"]);
    }
}

#[test]
fn forced_wrapper_on_unsupported_target_fails() {
    let mut config = Config::default();
    config.container.use_when = "never".to_string();
    let builder = Builder::with_config(config, linux_host(), zig()).unwrap();
    let options = BuildOptions { use_zig: Some(true), ..options_for("x86_64-apple-darwin") };
    assert!(matches!(builder.plan_build(&options), Err(Error::Toolchain(_))));
}

#[test]
fn forced_wrapper_without_toolchain_fails() {
    let mut config = Config::default();
    config.container.use_when = "never".to_string();
    let builder = Builder::with_config(config, linux_host(), None).unwrap();
    let options = BuildOptions { use_zig: Some(true), ..options_for("x86_64-unknown-linux-gnu") };
    assert!(matches!(builder.plan_build(&options), Err(Error::Toolchain(_))));
}

#[test]
fn automatic_wrapper_for_cross_os_target() {
    let mut config = Config::default();
    config.container.use_when = "never".to_string();
    let builder = Builder::with_config(config, linux_host(), zig()).unwrap();
    let plan = builder.plan_build(&options_for("x86_64-pc-windows-gnu")).unwrap();
    assert_eq!(plan.strategy, Strategy::Wrapper);
    assert_eq!(plan.env.len(), 3);
    assert_eq!(plan.env[0], ("CC".to_string(), "/cache/x86_64-pc-windows-gnu-cc".to_string()));
}

#[test]
fn automatic_wrapper_falls_back_to_native() {
    let mut config = Config::default();
    config.container.use_when = "never".to_string();
    let builder = Builder::with_config(config, linux_host(), zig()).unwrap();
    let plan = builder.plan_build(&options_for("x86_64-apple-darwin")).unwrap();
    assert_eq!(plan.strategy, Strategy::Native);
}

#[test]
fn disabled_wrapper_uses_native_with_linker() {
    let mut config = Config::default();
    config.container.use_when = "never".to_string();
    let builder = Builder::with_config(config, linux_host(), zig()).unwrap();
    let options = BuildOptions { use_zig: Some(false), ..options_for("x86_64-pc-windows-gnu") };
    let plan = builder.plan_build(&options).unwrap();
    assert_eq!(plan.strategy, Strategy::Native);
    assert_eq!(plan.linker, Some("x86_64-w64-mingw32-gcc".to_string()));
    assert_eq!(
        plan.env[0],
        (
            "CARGO_TARGET_X86_64_PC_WINDOWS_GNU_LINKER".to_string(),
            "x86_64-w64-mingw32-gcc".to_string()
        )
    );
}

#[test]
fn default_policy_picks_container_for_other_os() {
    let builder = Builder::new(linux_host(), None).unwrap();
    let plan = builder.plan_build(&options_for("x86_64-pc-windows-gnu")).unwrap();
    assert_eq!(plan.strategy, Strategy::Container);
    let plan = builder.plan_build(&options_for("aarch64-unknown-linux-gnu")).unwrap();
    assert_eq!(plan.strategy, Strategy::Native);
}

#[test]
fn configuration_layers_over_strategy_environment() {
    let mut config = Config::default();
    config.container.use_when = "never".to_string();
    config.build.cargo_flags = vec!["--verbose".to_string(), "--locked".to_string()];
    config.targets.default = vec!["aarch64-unknown-linux-gnu".to_string()];
    config.targets.custom = vec![(
        "aarch64-unknown-linux-gnu".to_string(),
        TargetCustomConfig {
            linker: Some("my-ld".to_string()),
            force_container: None,
            env: vec![("CARGO_TARGET_AARCH64_UNKNOWN_LINUX_GNU_LINKER".to_string(), "other-ld".to_string())],
            rustflags: Some(vec!["-C".to_string(), "opt-level=3".to_string()]),
        },
    )];
    let builder = Builder::with_config(config, linux_host(), None).unwrap();
    let options = BuildOptions {
        toolchain: Some("nightly".to_string()),
        operation: CargoOperation::Check,
        ..BuildOptions::default()
    };
    let plan = builder.plan_build(&options).unwrap();
    assert_eq!(plan.target.triple, "aarch64-unknown-linux-gnu");
    assert_eq!(plan.linker, Some("my-ld".to_string()));
    assert_eq!(
        plan.env,
        vec![
            ("CARGO_TARGET_AARCH64_UNKNOWN_LINUX_GNU_LINKER".to_string(), "my-ld".to_string()),
            ("CARGO_TARGET_AARCH64_UNKNOWN_LINUX_GNU_LINKER".to_string(), "other-ld".to_string()),
            ("RUSTFLAGS".to_string(), "-C opt-level=3".to_string()),
        ]
    );
    assert_eq!(
        plan.args,
        vec!["+nightly", "check", "--target", "aarch64-unknown-linux-gnu", "--verbose", "--verbose", "--locked"]
    );
}

#[test]
fn host_triple_is_the_last_resort() {
    let builder = Builder::new(linux_host(), None).unwrap();
    assert_eq!(builder.effective_triple(&BuildOptions::default()), "x86_64-unknown-linux-gnu");
    let plan = builder.plan_build(&BuildOptions::default()).unwrap();
    assert_eq!(plan.target.triple, "x86_64-unknown-linux-gnu");
}

#[test]
fn malformed_target_is_a_target_error() {
    let builder = Builder::new(linux_host(), None).unwrap();
    assert!(matches!(builder.plan_build(&options_for("linux")), Err(Error::TargetNotFound(_))));
}

#[test]
fn wrapper_modes() {
    assert_eq!(BuildOptions::default().wrapper_mode(), WrapperMode::Auto);
    let forced = BuildOptions { use_zig: Some(true), ..BuildOptions::default() };
    assert_eq!(forced.wrapper_mode(), WrapperMode::Force);
    let off = BuildOptions { use_zig: Some(false), ..BuildOptions::default() };
    assert_eq!(off.wrapper_mode(), WrapperMode::Disable);
}

#[test]
fn substituting_the_target_keeps_the_rest() {
    let options = BuildOptions { release: true, cargo_args: vec!["-q".to_string()], ..BuildOptions::default() };
    let per_target = options.with_target("a-b-c");
    assert_eq!(per_target.target, Some("a-b-c".to_string()));
    assert!(per_target.release);
    assert_eq!(per_target.cargo_args, vec!["-q"]);
}

#[test]
fn linker_tips_by_host_and_target() {
    let mac = Target::from_triple("aarch64-apple-darwin").unwrap();
    let builder = Builder::new(Target::from_triple("x86_64-apple-macos").unwrap(), None).unwrap();
    let linux = Target::from_triple("aarch64-unknown-linux-gnu").unwrap();
    let tips = builder.suggest_linker_installation(&linux);
    assert_eq!(tips.len(), 2);
    assert_eq!(tips[1], "Then build with: xcargo build --target aarch64-unknown-linux-gnu --zig");
    let other = Builder::new(linux_host(), None).unwrap().suggest_linker_installation(&mac);
    assert_eq!(other, vec!["Install cross-compilation tools for linux → darwin"]);
}

#[test]
fn parallel_run_with_one_failure() {
    let events = vec![
        ("A".to_string(), true),
        ("B".to_string(), false),
        ("C".to_string(), true),
    ];
    let summary = BuildSummary::summarize(&events);
    assert_eq!(summary.successes, vec!["A", "C"]);
    assert_eq!(summary.failures, vec!["B"]);
    assert!(matches!(summary.finish(), Err(Error::Build(_))));
}

#[test]
fn arrival_order_does_not_change_the_verdict() {
    let orders = [
        vec![("A", true), ("B", false), ("C", true), ("D", false)],
        vec![("D", false), ("C", true), ("B", false), ("A", true)],
    ];
    for order in orders.iter() {
        let mut summary = BuildSummary::new();
        for (t, ok) in order {
            summary.record(t, *ok);
        }
        assert_eq!(summary.failures.len(), 2);
        assert_eq!(summary.successes.len(), 2);
        assert!(summary.finish().is_err());
    }
}

#[test]
fn all_successes_pass() {
    let mut summary = BuildSummary::new();
    summary.record("A", true);
    summary.record("B", true);
    assert!(summary.finish().is_ok());
    assert!(BuildSummary::new().finish().is_ok());
}

#[test]
fn engine_without_support_builds_with_detection() {
    let mut config = Config::default();
    config.container.runtime = "youki".to_string();
    config.targets.custom = vec![(
        "x86_64-pc-windows-gnu".to_string(),
        TargetCustomConfig {
            linker: None,
            force_container: None,
            env: vec![("K".to_string(), "V".to_string())],
            rustflags: None,
        },
    )];
    let builder = Builder::with_config(config, linux_host(), None).unwrap();
    let options = BuildOptions { use_container: true, ..options_for("x86_64-pc-windows-gnu") };
    let plan = builder.plan_build(&options).unwrap();
    assert_eq!(plan.strategy, Strategy::Container);
    let request = plan.container.unwrap();
    assert_eq!(request.runtime, RuntimeType::Auto);
    assert_eq!(request.env, vec![("K".to_string(), "V".to_string())]);
}

#[test]
fn linker_diagnostics_only_when_missing() {
    let builder = Builder::new(linux_host(), None).unwrap();
    let windows = Target::from_triple("x86_64-pc-windows-gnu").unwrap();
    assert!(builder.linker_diagnostics(&windows, true).is_empty());
    assert_eq!(
        builder.linker_diagnostics(&windows, false),
        vec![
            "Install MinGW: sudo apt install mingw-w64 (Debian/Ubuntu)",
            "Or: sudo dnf install mingw64-gcc (Fedora)"
        ]
    );
}

#[test]
fn failed_run_reports_its_message() {
    let mut summary = BuildSummary::new();
    summary.record("B", false);
    match summary.finish() {
        Err(Error::Build(m)) => assert_eq!(m, "Some targets failed to build"),
        _ => panic!("expected a build error"),
    }
}

#[test]
fn failure_tips_for_a_missing_cross_linker() {
    let builder = Builder::new(linux_host(), None).unwrap();
    let target = Target::from_triple("x86_64-pc-windows-gnu").unwrap();
    let tips = builder.failure_tips(&target, &None, false);
    assert_eq!(
        tips,
        vec![
            "This target requires a cross-compilation linker".to_string(),
            "Install the linker: x86_64-w64-mingw32-gcc".to_string(),
            "Then configure it in xcargo.toml:".to_string(),
            "[targets.\"x86_64-pc-windows-gnu\"] linker = \"x86_64-w64-mingw32-gcc\"".to_string(),
            "Additional required tools: x86_64-w64-mingw32-gcc".to_string(),
            "Install via package manager: sudo apt install mingw-w64".to_string(),
            "Then set: [targets.\"x86_64-pc-windows-gnu\"] linker = \"x86_64-w64-mingw32-gcc\"".to_string(),
            "Run with --verbose to see detailed error output".to_string(),
        ]
    );
    let missing = builder.failure_tips(&target, &Some("ld.x".to_string()), false);
    assert_eq!(missing[0], "The configured linker 'ld.x' is not in your PATH");
    assert_eq!(builder.failure_tips(&target, &Some("ld.x".to_string()), true).len(), 1);
}

#[test]
fn one_failure_in_any_arrival_order() {
    let orders = [
        ["A", "B", "C"], ["A", "C", "B"], ["B", "A", "C"],
        ["B", "C", "A"], ["C", "A", "B"], ["C", "B", "A"],
    ];
    for order in orders.iter() {
        let events: Vec<(String, bool)> = order.iter().map(|t| (t.to_string(), *t != "B")).collect();
        let summary = BuildSummary::summarize(&events);
        let mut ok = summary.successes.clone();
        ok.sort();
        assert_eq!(ok, vec!["A", "C"]);
        assert_eq!(summary.failures, vec!["B"]);
        match summary.finish() {
            Err(Error::Build(m)) => assert_eq!(m, "Some targets failed to build"),
            _ => panic!("expected a build error"),
        }
    }
}
