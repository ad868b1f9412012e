use std::path::PathBuf;
use std::sync::{Arc, Mutex};
use xcargo::plugin::{init, Plugin, PluginContext, PluginHook, PluginMetadata, PluginRegistry};
use xcargo::{Error, Result};

struct NamedPlugin {
    name: String,
}

impl Plugin for NamedPlugin {
    fn name(&self) -> &str {
        &self.name
    }
}

struct MetaPlugin;

impl Plugin for MetaPlugin {
    fn name(&self) -> &str {
        "test-plugin"
    }

    fn version(&self) -> &str {
        "1.0.0"
    }

    fn description(&self) -> &str {
        "A test plugin"
    }
}

struct RecordingPlugin {
    pre_build_called: Arc<Mutex<bool>>,
}

impl Plugin for RecordingPlugin {
    fn name(&self) -> &str {
        "test"
    }

    fn on_pre_build(&self, _ctx: &PluginContext) -> Result<()> {
        *self.pre_build_called.lock().unwrap() = true;
        Ok(())
    }
}

struct FailingInit;

impl Plugin for FailingInit {
    fn name(&self) -> &str {
        "broken"
    }

    fn on_init(&self) -> Result<()> {
        Err(Error::Config("no".to_string()))
    }
}

struct FailingShutdown;

impl Plugin for FailingShutdown {
    fn name(&self) -> &str {
        "f"
    }

    fn on_shutdown(&self) -> Result<()> {
        Err(Error::Config("stuck".to_string()))
    }
}

fn named(n: &str) -> Box<dyn Plugin> {
    Box::new(NamedPlugin { name: n.to_string() })
}

#[test]
fn test_plugin_context_builder() {
    let ctx = PluginContext::new("x86_64-unknown-linux-gnu".to_string())
        .with_release(true)
        .with_project_root(PathBuf::from("/project"))
        .with_cargo_args(vec!["--features".to_string(), "full".to_string()])
        .with_toolchain(Some("stable".to_string()))
        .with_container(true)
        .with_zig(false);

    assert_eq!(ctx.target, "x86_64-unknown-linux-gnu");
    assert!(ctx.release);
    assert_eq!(ctx.project_root, PathBuf::from("/project"));
    assert_eq!(ctx.cargo_args.len(), 2);
    assert_eq!(ctx.toolchain, Some("stable".to_string()));
    assert!(ctx.use_container);
    assert!(!ctx.use_zig);
}

#[test]
fn test_plugin_context_metadata() {
    let mut ctx = PluginContext::new("test-target".to_string());

    ctx.set_metadata("key1".to_string(), "value1".to_string());
    ctx.set_metadata("key2".to_string(), "value2".to_string());

    assert_eq!(ctx.get_metadata("key1"), Some(&"value1".to_string()));
    assert_eq!(ctx.get_metadata("key2"), Some(&"value2".to_string()));
    assert_eq!(ctx.get_metadata("nonexistent"), None);
}

#[test]
fn test_plugin_metadata_creation() {
    let metadata = PluginMetadata::new("test-plugin".to_string(), "1.0.0".to_string());

    assert_eq!(metadata.name, "test-plugin");
    assert_eq!(metadata.version, "1.0.0");
    assert!(metadata.enabled);
}

#[test]
fn test_hook_as_str() {
    assert_eq!(PluginHook::PreBuild.as_str(), "pre-build");
    assert_eq!(PluginHook::PostBuild.as_str(), "post-build");
    assert_eq!(PluginHook::BuildFailed.as_str(), "build-failed");
    assert_eq!(PluginHook::PreToolchainInstall.as_str(), "pre-toolchain-install");
    assert_eq!(PluginHook::PostToolchainInstall.as_str(), "post-toolchain-install");
    assert_eq!(PluginHook::Init.as_str(), "init");
    assert_eq!(PluginHook::Shutdown.as_str(), "shutdown");
}

#[test]
fn test_hook_execute() {
    let called = Arc::new(Mutex::new(false));
    let plugin = RecordingPlugin { pre_build_called: called.clone() };
    let ctx = PluginContext::default();

    PluginHook::PreBuild.execute(&plugin, &ctx).unwrap();

    assert!(*called.lock().unwrap());
}

#[test]
fn test_plugin_init() {
    let registry = init().unwrap();
    assert_eq!(registry.count(), 0);
}

#[test]
fn test_registry_new() {
    let registry = PluginRegistry::new();
    assert_eq!(registry.count(), 0);
}

#[test]
fn test_register_plugin() {
    let mut registry = PluginRegistry::new();
    registry.register(named("test-plugin")).unwrap();
    assert_eq!(registry.count(), 1);
    assert!(registry.contains("test-plugin"));
}

#[test]
fn test_register_duplicate_fails() {
    let mut registry = PluginRegistry::new();
    registry.register(named("test-plugin")).unwrap();
    let result = registry.register(named("test-plugin"));
    assert!(result.is_err());
}

#[test]
fn test_unregister_plugin() {
    let mut registry = PluginRegistry::new();
    registry.register(named("test-plugin")).unwrap();
    assert_eq!(registry.count(), 1);
    registry.unregister("test-plugin").unwrap();
    assert_eq!(registry.count(), 0);
}

#[test]
fn test_get_plugin() {
    let mut registry = PluginRegistry::new();
    registry.register(named("test-plugin")).unwrap();
    let retrieved = registry.get("test-plugin");
    assert!(retrieved.is_some());
    assert_eq!(retrieved.unwrap().name(), "test-plugin");
}

#[test]
fn test_list_plugins() {
    let mut registry = PluginRegistry::new();
    registry.register(named("plugin1")).unwrap();
    registry.register(named("plugin2")).unwrap();
    let list = registry.list();
    assert_eq!(list.len(), 2);
    assert!(list.contains(&"plugin1".to_string()));
    assert!(list.contains(&"plugin2".to_string()));
}

#[test]
fn test_execution_order() {
    let mut registry = PluginRegistry::new();
    registry.register(named("plugin1")).unwrap();
    registry.register(named("plugin2")).unwrap();
    registry
        .set_execution_order(vec!["plugin2".to_string(), "plugin1".to_string()])
        .unwrap();
    let list = registry.list();
    assert_eq!(list, vec!["plugin2", "plugin1"]);
}

#[test]
fn test_execute_hook() {
    let mut registry = PluginRegistry::new();
    registry.register(named("test")).unwrap();
    let ctx = PluginContext::default();
    let result = registry.execute_hook(PluginHook::PreBuild, &ctx);
    assert!(result.is_ok());
}

#[test]
fn test_plugin_metadata() {
    let plugin = MetaPlugin;
    assert_eq!(plugin.name(), "test-plugin");
    assert_eq!(plugin.version(), "1.0.0");
    assert_eq!(plugin.description(), "A test plugin");
}

#[test]
fn test_plugin_hooks_default_impl() {
    let plugin = MetaPlugin;
    let ctx = PluginContext::default();

    assert!(plugin.on_pre_build(&ctx).is_ok());
    assert!(plugin.on_post_build(&ctx).is_ok());
    assert!(plugin.on_build_failed(&ctx, "test error").is_ok());
    assert!(plugin.on_init().is_ok());
    assert!(plugin.on_shutdown().is_ok());
}

#[test]
fn failing_init_leaves_registry_unchanged() {
    let mut registry = PluginRegistry::new();
    assert!(registry.register(Box::new(FailingInit)).is_err());
    assert_eq!(registry.count(), 0);
    assert!(registry.list().is_empty());
}

#[test]
fn unknown_names_cannot_be_ordered() {
    let mut registry = PluginRegistry::new();
    registry.register(named("a")).unwrap();
    assert!(registry.set_execution_order(vec!["b".to_string()]).is_err());
    assert_eq!(registry.list(), vec!["a"]);
}

#[test]
fn shutdown_empties_the_registry() {
    let mut registry = PluginRegistry::new();
    registry.register(named("a")).unwrap();
    registry.register(named("b")).unwrap();
    registry.shutdown().unwrap();
    assert_eq!(registry.count(), 0);
    assert!(registry.list().is_empty());
    assert!(registry.get("a").is_none());
}

#[test]
fn metadata_overwrites_same_key() {
    let mut ctx = PluginContext::new("t".to_string());
    ctx.set_metadata("k".to_string(), "1".to_string());
    ctx.set_metadata("k".to_string(), "2".to_string());
    assert_eq!(ctx.get_metadata("k"), Some(&"2".to_string()));
    assert_eq!(ctx.metadata.len(), 1);
}

#[test]
fn unregister_removes_the_name_from_the_order() {
    let mut registry = PluginRegistry::new();
    registry.register(named("a")).unwrap();
    registry.register(named("b")).unwrap();
    registry.unregister("a").unwrap();
    assert_eq!(registry.list(), vec!["b"]);
    assert!(init().unwrap().list().is_empty());
}

#[test]
fn shutdown_keeps_plugins_left_out_of_the_order() {
    let mut registry = PluginRegistry::new();
    registry.register(named("a")).unwrap();
    registry.register(named("b")).unwrap();
    registry.set_execution_order(vec!["b".to_string()]).unwrap();
    registry.shutdown().unwrap();
    assert!(registry.contains("a"));
    assert!(!registry.contains("b"));
    assert!(registry.list().is_empty());
}

#[test]
fn register_as_refuses_a_taken_name() {
    let mut registry = PluginRegistry::new();
    registry.register_as("x", named("x")).unwrap();
    match registry.register_as("x", named("x")) {
        Err(Error::Config(m)) => assert_eq!(m, "Plugin 'x' is already registered"),
        _ => panic!("expected a configuration error"),
    }
    assert_eq!(registry.list(), vec!["x"]);
}

#[test]
fn failing_shutdown_keeps_later_plugins() {
    let mut registry = PluginRegistry::new();
    registry.register(named("a")).unwrap();
    registry.register(Box::new(FailingShutdown)).unwrap();
    registry.register(named("c")).unwrap();
    assert!(registry.shutdown().is_err());
    assert!(!registry.contains("a"));
    assert!(!registry.contains("f"));
    assert!(registry.contains("c"));
}
