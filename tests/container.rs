use xcargo::container::{
    check_runtime_availability, run_args, select_engine, ContainerBuilder, ContainerConfig,
    ContainerRuntime, DockerRuntime, Engine, ImageSelector, PodmanRuntime, RuntimeType,
};
use xcargo::Error;

#[test]
fn test_select_linux_target() {
    let selector = ImageSelector::new();
    let image = selector.select_for_target("x86_64-unknown-linux-gnu").unwrap();
    assert_eq!(image.target, "x86_64-unknown-linux-gnu");
    assert!(image.full_name().contains("cross-rs"));
}

#[test]
fn test_select_windows_target() {
    let selector = ImageSelector::new();
    let image = selector.select_for_target("x86_64-pc-windows-gnu").unwrap();
    assert_eq!(image.target, "x86_64-pc-windows-gnu");
}

#[test]
fn test_macos_target_returns_error() {
    let selector = ImageSelector::new();
    assert!(selector.select_for_target("x86_64-apple-darwin").is_err());
}

#[test]
fn test_wasm_target_returns_error() {
    let selector = ImageSelector::new();
    assert!(selector.select_for_target("wasm32-unknown-unknown").is_err());
}

#[test]
fn test_unknown_target_returns_error() {
    let selector = ImageSelector::new();
    assert!(selector.select_for_target("unknown-target").is_err());
}

#[test]
fn test_supported_targets_not_empty() {
    let selector = ImageSelector::new();
    assert!(!selector.supported_targets().is_empty());
}

#[test]
fn test_container_config_default() {
    let config = ContainerConfig::default();
    assert_eq!(config.runtime, RuntimeType::Auto);
    assert_eq!(config.workdir, "/project");
}

#[test]
fn test_container_builder_creation() {
    let builder = ContainerBuilder::new(RuntimeType::Auto, true, false, "linux");
    if let Ok(builder) = builder {
        assert!(!builder.runtime_name().is_empty());
    }
}

#[test]
fn test_runtime_type_from_str() {
    assert_eq!(RuntimeType::from_str("auto").unwrap(), RuntimeType::Auto);
    assert_eq!(RuntimeType::from_str("docker").unwrap(), RuntimeType::Docker);
    assert_eq!(RuntimeType::from_str("podman").unwrap(), RuntimeType::Podman);
    assert!(RuntimeType::from_str("invalid").is_err());
}

#[test]
fn test_docker_runtime_name() {
    let runtime = DockerRuntime::new();
    assert_eq!(runtime.name(), "docker");
}

#[test]
fn test_podman_runtime_name() {
    let runtime = PodmanRuntime::new();
    assert_eq!(runtime.name(), "podman");
}

#[test]
fn runtime_type_ignores_case() {
    assert_eq!(RuntimeType::from_str("DOCKER").unwrap(), RuntimeType::Docker);
    match RuntimeType::from_str("Youki") {
        Err(Error::Config(m)) => assert_eq!(m, "Unknown runtime type: Youki"),
        _ => panic!("expected a configuration error"),
    }
}

#[test]
fn wasm_image_lookup_says_containers_are_unnecessary() {
    let selector = ImageSelector::new();
    match selector.select_for_target("wasm32-unknown-unknown") {
        Err(Error::Container(m)) => {
            assert_eq!(m, "WebAssembly doesn't require containers - use native build")
        }
        _ => panic!("expected a container error"),
    }
}

#[test]
fn macos_image_lookup_suggests_osxcross() {
    let selector = ImageSelector::new();
    match selector.select_for_target("aarch64-apple-darwin") {
        Err(Error::Container(m)) => assert!(m.contains("osxcross")),
        _ => panic!("expected a container error"),
    }
}

#[test]
fn image_name_is_registry_target_latest() {
    let selector = ImageSelector::with_registry("example.org/images".to_string());
    let image = selector.select_for_target("aarch64-linux-android").unwrap();
    assert_eq!(image.repository, "example.org/images/aarch64-linux-android");
    assert_eq!(image.tag, "latest");
    assert_eq!(image.full_name(), "example.org/images/aarch64-linux-android:latest");
}

#[test]
fn every_listed_target_has_an_image() {
    let selector = ImageSelector::new();
    let targets = selector.supported_targets();
    assert_eq!(targets.len(), 11);
    for t in targets {
        assert!(selector.select_for_target(t).is_ok());
    }
}

#[test]
fn engine_selection_prefers_docker() {
    assert_eq!(select_engine(RuntimeType::Auto, true, true, "linux").unwrap(), Engine::Docker);
    assert_eq!(select_engine(RuntimeType::Auto, false, true, "linux").unwrap(), Engine::Podman);
    assert_eq!(select_engine(RuntimeType::Podman, true, true, "linux").unwrap(), Engine::Podman);
}

#[test]
fn forced_engine_must_be_available() {
    match select_engine(RuntimeType::Docker, false, true, "linux") {
        Err(Error::ContainerNotAvailable { runtime, install_hint }) => {
            assert_eq!(runtime, "docker");
            assert!(install_hint.contains("docker.io"));
        }
        _ => panic!("expected the engine to be unavailable"),
    }
    match select_engine(RuntimeType::Auto, false, false, "macos") {
        Err(Error::ContainerNotAvailable { runtime, .. }) => assert_eq!(runtime, "docker/podman"),
        _ => panic!("expected no engine"),
    }
}

#[test]
fn availability_report_prefers_docker() {
    assert_eq!(check_runtime_availability(true, true), Some("docker".to_string()));
    assert_eq!(check_runtime_availability(false, true), Some("podman".to_string()));
    assert_eq!(check_runtime_availability(false, false), None);
}

#[test]
fn run_arguments_are_composed_in_order() {
    let args = run_args(
        "img:1",
        &vec!["cargo".to_string(), "build".to_string()],
        &vec![("/src".to_string(), "/project".to_string())],
        &vec![("K".to_string(), "V".to_string())],
        "/project",
    );
    assert_eq!(
        args,
        vec!["run", "--rm", "-it", "-w", "/project", "-v", "/src:/project", "-e", "K=V", "img:1", "cargo", "build"]
    );
}

#[test]
fn container_build_composes_pull_and_run() {
    let builder = ContainerBuilder::new(RuntimeType::Podman, false, true, "linux").unwrap();
    let config = ContainerConfig::default();
    let run = builder
        .build(
            "aarch64-unknown-linux-gnu",
            &vec!["--release".to_string()],
            &config,
            "/home/u/proj",
            Some("/home/u"),
        )
        .unwrap();
    assert_eq!(run.program, "podman");
    assert_eq!(run.image, "ghcr.io/cross-rs/aarch64-unknown-linux-gnu:latest");
    assert_eq!(run.pull_args, vec!["pull", "ghcr.io/cross-rs/aarch64-unknown-linux-gnu:latest"]);
    assert_eq!(
        run.run_args,
        vec![
            "run", "--rm", "-it", "-w", "/project",
            "-v", "/home/u/proj:/project",
            "-v", "/home/u/.cargo:/root/.cargo",
            "ghcr.io/cross-rs/aarch64-unknown-linux-gnu:latest",
            "cargo", "build", "--target", "aarch64-unknown-linux-gnu", "--release",
        ]
    );
}

#[test]
fn container_build_without_image_fails() {
    let builder = ContainerBuilder::new(RuntimeType::Docker, true, false, "linux").unwrap();
    let config = ContainerConfig::default();
    assert!(matches!(
        builder.build("wasm32-unknown-unknown", &vec![], &config, "/p", None),
        Err(Error::Container(_))
    ));
}

#[test]
fn trait_runtime_builds_pull_arguments() {
    let rt: Box<dyn ContainerRuntime> = Box::new(DockerRuntime::new());
    assert_eq!(rt.pull_args("a:b"), vec!["pull", "a:b"]);
    assert_eq!(rt.list_images_args(), vec!["images", "--format", "{{.Repository}}:{{.Tag}}"]);
}

#[test]
fn supported_targets_are_distinct() {
    let targets = ImageSelector::new().supported_targets();
    for i in 0..targets.len() {
        for j in (i + 1)..targets.len() {
            assert_ne!(targets[i], targets[j]);
        }
    }
    assert!(!targets.contains(&"x86_64-apple-darwin"));
}

#[test]
fn builder_failure_names_the_engine() {
    match ContainerBuilder::new(RuntimeType::Podman, true, false, "linux") {
        Err(Error::ContainerNotAvailable { runtime, install_hint }) => {
            assert_eq!(runtime, "podman");
            assert!(install_hint.contains("apt install podman"));
        }
        _ => panic!("expected the engine to be unavailable"),
    }
}
