//! Plugins: hooks that run around builds and toolchain installs.
use vstd::prelude::*;
use crate::config::{find_key, upsert};
use crate::error::{Error, Result};
use crate::strs::{concat3, owned, str_eq};
use crate::target::strings_view;

verus! {

#[verifier::external_type_specification]
#[verifier::external_body]
pub struct ExPathBuf(std::path::PathBuf);

/// Relies on `PathBuf::new`: an empty path. Nothing is stated of it.
pub assume_specification[ std::path::PathBuf::new ]() -> std::path::PathBuf;

/// Context passed to plugin hooks
///
/// Contains information about the current build, target, and environment.
#[derive(Debug)]
pub struct PluginContext {
    /// Target triple being built
    pub target: String,
    /// Whether this is a release build
    pub release: bool,
    /// Project root directory
    pub project_root: std::path::PathBuf,
    /// Additional cargo arguments
    pub cargo_args: Vec<String>,
    /// Toolchain being used (if any)
    pub toolchain: Option<String>,
    /// Whether using container build
    pub use_container: bool,
    /// Whether using Zig for cross-compilation
    pub use_zig: bool,
    /// Custom metadata that plugins can use to share state, keyed by name
    pub metadata: Vec<(String, String)>,
}

impl Default for PluginContext {
    fn default() -> (r: Self)
        ensures
            r.target@.len() == 0,
            !r.release,
            r.cargo_args.len() == 0,
            r.toolchain is None,
            !r.use_container,
            !r.use_zig,
            r.metadata.len() == 0,
    {
        PluginContext {
            target: String::new(),
            release: false,
            project_root: std::path::PathBuf::new(),
            cargo_args: Vec::new(),
            toolchain: None,
            use_container: false,
            use_zig: false,
            metadata: Vec::new(),
        }
    }
}

impl PluginContext {
    /// Create a new plugin context
    pub fn new(target: String) -> (r: Self)
        ensures
            r.target == target,
            !r.release,
            r.cargo_args.len() == 0,
            r.toolchain is None,
            !r.use_container,
            !r.use_zig,
            r.metadata.len() == 0,
    {
        PluginContext {
            target,
            release: false,
            project_root: std::path::PathBuf::new(),
            cargo_args: Vec::new(),
            toolchain: None,
            use_container: false,
            use_zig: false,
            metadata: Vec::new(),
        }
    }

    /// Set release mode
    pub fn with_release(self, release: bool) -> (r: Self)
        ensures
            r == (PluginContext { release, ..self }),
    {
        PluginContext { release, ..self }
    }

    /// Set project root
    pub fn with_project_root(self, root: std::path::PathBuf) -> (r: Self)
        ensures
            r == (PluginContext { project_root: root, ..self }),
    {
        PluginContext { project_root: root, ..self }
    }

    /// Add cargo arguments
    pub fn with_cargo_args(self, args: Vec<String>) -> (r: Self)
        ensures
            r == (PluginContext { cargo_args: args, ..self }),
    {
        PluginContext { cargo_args: args, ..self }
    }

    /// Set toolchain
    pub fn with_toolchain(self, toolchain: Option<String>) -> (r: Self)
        ensures
            r == (PluginContext { toolchain, ..self }),
    {
        PluginContext { toolchain, ..self }
    }

    /// Set container usage
    pub fn with_container(self, use_container: bool) -> (r: Self)
        ensures
            r == (PluginContext { use_container, ..self }),
    {
        PluginContext { use_container, ..self }
    }

    /// Set Zig usage
    pub fn with_zig(self, use_zig: bool) -> (r: Self)
        ensures
            r == (PluginContext { use_zig, ..self }),
    {
        PluginContext { use_zig, ..self }
    }

    /// Add a metadata entry, replacing any earlier value for the key
    pub fn set_metadata(&mut self, key: String, value: String)
        ensures
            find_key(final(self).metadata@, key@) matches Some(j) && final(self).metadata@[j].1 == value,
            forall|k: Seq<char>|
                k != key@ && (#[trigger] find_key(old(self).metadata@, k)) is Some ==> find_key(
                    final(self).metadata@,
                    k,
                ) == find_key(old(self).metadata@, k) && final(self).metadata@[find_key(
                    old(self).metadata@,
                    k,
                )->0] == old(self).metadata@[find_key(old(self).metadata@, k)->0],
            forall|k: Seq<char>|
                k != key@ && (#[trigger] find_key(old(self).metadata@, k)) is None ==> find_key(
                    final(self).metadata@,
                    k,
                ) is None,
            crate::config::keys_unique(old(self).metadata@) ==> crate::config::keys_unique(
                final(self).metadata@,
            ),
            final(self).target == old(self).target,
    {
        upsert(&mut self.metadata, key.as_str(), value);
    }

    /// Get a metadata entry
    pub fn get_metadata(&self, key: &str) -> (r: Option<&String>)
        ensures
            match find_key(self.metadata@, key@) {
                Some(i) => r == Some(&self.metadata@[i].1),
                None => r is None,
            },
    {
        match crate::config::position(&self.metadata, key) {
            Some(i) => Some(&self.metadata[i].1),
            None => None,
        }
    }
}

/// Plugin metadata
#[derive(Debug, Clone)]
pub struct PluginMetadata {
    /// Plugin name
    pub name: String,
    /// Plugin version
    pub version: String,
    /// Plugin description
    pub description: String,
    /// Plugin author
    pub author: String,
    /// Whether plugin is enabled
    pub enabled: bool,
}

impl PluginMetadata {
    /// Create new plugin metadata, enabled, with no description or author
    pub fn new(name: String, version: String) -> (r: Self)
        ensures
            r.name == name,
            r.version == version,
            r.description@.len() == 0,
            r.author@.len() == 0,
            r.enabled,
    {
        PluginMetadata { name, version, description: String::new(), author: String::new(), enabled: true }
    }
}

/// Main plugin trait that all plugins must implement. Every hook defaults
/// to doing nothing successfully; returning an error from a pre-hook asks
/// the caller to abort the step.
pub trait Plugin {
    /// Plugin name (must be unique)
    fn name(&self) -> &str;

    /// Plugin version (semantic versioning recommended)
    fn version(&self) -> &str {
        "0.1.0"
    }

    /// Plugin description
    fn description(&self) -> &str {
        ""
    }

    /// Plugin author(s)
    fn author(&self) -> &str {
        ""
    }

    /// Called before the build starts
    fn on_pre_build(&self, ctx: &PluginContext) -> Result<()> {
        Ok(())
    }

    /// Called after the build completes successfully
    fn on_post_build(&self, ctx: &PluginContext) -> Result<()> {
        Ok(())
    }

    /// Called if the build fails
    fn on_build_failed(&self, ctx: &PluginContext, error: &str) -> Result<()> {
        Ok(())
    }

    /// Called before toolchain installation
    fn on_pre_toolchain_install(&self, ctx: &PluginContext) -> Result<()> {
        Ok(())
    }

    /// Called after toolchain installation
    fn on_post_toolchain_install(&self, ctx: &PluginContext) -> Result<()> {
        Ok(())
    }

    /// Called when plugin is initialized
    fn on_init(&self) -> Result<()> {
        Ok(())
    }

    /// Called when plugin is unloaded
    fn on_shutdown(&self) -> Result<()> {
        Ok(())
    }
}

/// Plugin hook execution points
#[derive(Debug, Clone, Copy, PartialEq, Eq, Structural)]
pub enum PluginHook {
    /// Before build starts
    PreBuild,
    /// After build completes
    PostBuild,
    /// When build fails
    BuildFailed,
    /// Before toolchain installation
    PreToolchainInstall,
    /// After toolchain installation
    PostToolchainInstall,
    /// On plugin initialization
    Init,
    /// On plugin shutdown
    Shutdown,
}

impl PluginHook {
    /// Get hook name as string
    pub fn as_str(&self) -> (r: &'static str)
        ensures
            r@ == (match self {
                PluginHook::PreBuild => "pre-build"@,
                PluginHook::PostBuild => "post-build"@,
                PluginHook::BuildFailed => "build-failed"@,
                PluginHook::PreToolchainInstall => "pre-toolchain-install"@,
                PluginHook::PostToolchainInstall => "post-toolchain-install"@,
                PluginHook::Init => "init"@,
                PluginHook::Shutdown => "shutdown"@,
            }),
    {
        match self {
            PluginHook::PreBuild => "pre-build",
            PluginHook::PostBuild => "post-build",
            PluginHook::BuildFailed => "build-failed",
            PluginHook::PreToolchainInstall => "pre-toolchain-install",
            PluginHook::PostToolchainInstall => "post-toolchain-install",
            PluginHook::Init => "init",
            PluginHook::Shutdown => "shutdown",
        }
    }

    /// Execute this hook on a plugin; the build-failed hook gets a generic
    /// message.
    pub fn execute(&self, plugin: &dyn Plugin, ctx: &PluginContext) -> Result<()> {
        match self {
            PluginHook::PreBuild => plugin.on_pre_build(ctx),
            PluginHook::PostBuild => plugin.on_post_build(ctx),
            PluginHook::BuildFailed => plugin.on_build_failed(ctx, "build failed"),
            PluginHook::PreToolchainInstall => plugin.on_pre_toolchain_install(ctx),
            PluginHook::PostToolchainInstall => plugin.on_post_toolchain_install(ctx),
            PluginHook::Init => plugin.on_init(),
            PluginHook::Shutdown => plugin.on_shutdown(),
        }
    }

    /// Execute hook with error message (for the build-failed hook)
    pub fn execute_with_error(&self, plugin: &dyn Plugin, ctx: &PluginContext, error: &str) -> Result<
        (),
    > {
        match self {
            PluginHook::BuildFailed => plugin.on_build_failed(ctx, error),
            _ => self.execute(plugin, ctx),
        }
    }
}

/// `order` without any occurrence of `name`, the rest in the same order.
pub open spec fn drop_name(order: Seq<Seq<char>>, name: Seq<char>) -> Seq<Seq<char>>
    decreases order.len(),
{
    if order.len() == 0 {
        seq![]
    } else if order.last() == name {
        drop_name(order.drop_last(), name)
    } else {
        drop_name(order.drop_last(), name).push(order.last())
    }
}

proof fn lemma_drop_name_contains(order: Seq<Seq<char>>, name: Seq<char>, n: Seq<char>)
    ensures
        drop_name(order, name).contains(n) <==> (order.contains(n) && n != name),
    decreases order.len(),
{
    if order.len() > 0 {
        let rest = order.drop_last();
        lemma_drop_name_contains(rest, name, n);
        assert(order =~= rest.push(order.last()));
        if order.contains(n) && n != order.last() {
            let k = choose|k: int| 0 <= k < order.len() && order[k] == n;
            assert(rest[k] == n);
        }
        if rest.contains(n) {
            let k = choose|k: int| 0 <= k < rest.len() && rest[k] == n;
            assert(order[k] == n);
        }
        let d = drop_name(rest, name);
        if order.last() != name {
            if d.push(order.last()).contains(n) && n != order.last() {
                let k = choose|k: int| 0 <= k < d.len() + 1 && d.push(order.last())[k] == n;
                assert(d[k] == n);
            }
            if d.contains(n) {
                let k = choose|k: int| 0 <= k < d.len() && d[k] == n;
                assert(d.push(order.last())[k] == n);
            }
            assert(d.push(order.last())[d.len() as int] == order.last());
        }
    }
}

/// A shutdown over `order` stopped at the hook of `order[k]`: the names up
/// to and including it are unregistered, and every registered name that
/// does not occur among them is still registered.
pub open spec fn stopped_at(
    order: Seq<Seq<char>>,
    before: Seq<Seq<char>>,
    after: Seq<Seq<char>>,
    k: int,
) -> bool {
    &&& 0 <= k < order.len()
    &&& forall|j: int| 0 <= j <= k ==> !#[trigger] after.contains(order[j])
    &&& forall|n: Seq<char>|
        before.contains(n) && !order.subrange(0, k + 1).contains(n) ==> #[trigger] after.contains(n)
}

/// Registry for managing plugins: registered plugins by unique name, and
/// the order in which hooks run (registration order unless set).
pub struct PluginRegistry {
    /// Registered names, unique, in registration order
    names: Vec<String>,
    /// The plugin of each name, at the same index. Verus does not track the
    /// length of a vector of trait objects, so every access checks its index.
    plugins: Vec<Box<dyn Plugin>>,
    /// Names in hook-execution order
    execution_order: Vec<String>,
}

impl PluginRegistry {
    /// Names of the registered plugins, in registration order.
    pub closed spec fn names(&self) -> Seq<Seq<char>> {
        strings_view(self.names@)
    }

    /// Names in hook-execution order.
    pub closed spec fn order(&self) -> Seq<Seq<char>> {
        strings_view(self.execution_order@)
    }

    /// Registered names are unique.
    pub open spec fn wf(&self) -> bool {
        self.names().no_duplicates()
    }

    /// Create a new empty plugin registry
    pub fn new() -> (r: Self)
        ensures
            r.wf(),
            r.names() == Seq::<Seq<char>>::empty(),
            r.order() == Seq::<Seq<char>>::empty(),
    {
        let r = PluginRegistry { names: Vec::new(), plugins: Vec::new(), execution_order: Vec::new() };
        assert(r.names() =~= Seq::<Seq<char>>::empty());
        assert(r.order() =~= Seq::<Seq<char>>::empty());
        r
    }

    fn index_of(&self, name: &str) -> (r: Option<usize>)
        ensures
            match r {
                Some(i) => i < self.names.len() && self.names()[i as int] == name@,
                None => !self.names().contains(name@),
            },
    {
        let mut i: usize = 0;
        while i < self.names.len()
            invariant
                i <= self.names.len(),
                forall|j: int| 0 <= j < i ==> self.names()[j] != name@,
            decreases self.names.len() - i,
        {
            if str_eq(self.names[i].as_str(), name) {
                return Some(i);
            }
            i = i + 1;
        }
        None
    }

    /// Register a plugin under its own name (`plugin.name()`): see
    /// `register_as`.
    pub fn register(&mut self, plugin: Box<dyn Plugin>) -> (r: Result<()>)
        requires
            old(self).wf(),
        ensures
            final(self).wf(),
            r is Err ==> final(self).names() == old(self).names() && final(self).order() == old(
                self,
            ).order(),
            r is Ok ==> exists|n: Seq<char>|
                !old(self).names().contains(n) && final(self).names() == old(self).names().push(n)
                    && final(self).order() == old(self).order().push(n),
    {
        let name = owned(plugin.name());
        self.register_as(name.as_str(), plugin)
    }

    /// Register `plugin` under `name`: a name already registered is refused
    /// with a configuration error before the plugin's init hook runs;
    /// otherwise the init hook runs, and its failure leaves the registry as
    /// it was; on success the name joins the registry and the end of the
    /// execution order.
    pub fn register_as(&mut self, name: &str, plugin: Box<dyn Plugin>) -> (r: Result<()>)
        requires
            old(self).wf(),
        ensures
            final(self).wf(),
            old(self).names().contains(name@) ==> (r matches Err(Error::Config(m)) && m@ == "Plugin '"@
                + name@ + "' is already registered"@),
            r is Err ==> final(self).names() == old(self).names() && final(self).order() == old(
                self,
            ).order(),
            r is Ok ==> !old(self).names().contains(name@) && final(self).names() == old(
                self,
            ).names().push(name@) && final(self).order() == old(self).order().push(name@),
    {
        if self.index_of(name).is_some() {
            return Err(Error::Config(concat3("Plugin '", name, "' is already registered")));
        }
        match plugin.on_init() {
            Ok(()) => {},
            Err(e) => {
                return Err(e);
            },
        }
        let ghost n = name@;
        let ghost old_names = self.names();
        let ghost old_order = self.order();
        self.execution_order.push(owned(name));
        self.names.push(owned(name));
        self.plugins.push(plugin);
        assert(self.names() =~= old_names.push(n));
        assert(self.order() =~= old_order.push(n));
        proof {
            assert forall|i: int, j: int|
                0 <= i < self.names().len() && 0 <= j < self.names().len() && i != j implies self.names()[i]
                != self.names()[j] by {
                if i < old_names.len() && j < old_names.len() {
                } else if i == old_names.len() {
                    assert(old_names[j] == self.names()[j]);
                } else {
                    assert(old_names[i] == self.names()[i]);
                }
            }
        }
        Ok(())
    }

    /// Unregister a plugin by name: it leaves the registry and the order,
    /// then its shutdown hook runs. An unknown name changes nothing.
    pub fn unregister(&mut self, name: &str) -> (r: Result<()>)
        requires
            old(self).wf(),
        ensures
            final(self).wf(),
            !final(self).names().contains(name@),
            !old(self).names().contains(name@) ==> r is Ok && final(self).names() == old(
                self,
            ).names() && final(self).order() == old(self).order(),
            old(self).names().contains(name@) ==> final(self).names().len() == old(self).names().len() - 1,
            old(self).names().contains(name@) && r is Ok ==> final(self).order() == drop_name(
                old(self).order(),
                name@,
            ),
            r is Err ==> final(self).order() == old(self).order(),
            forall|n: Seq<char>| n != name@ ==> (final(self).names().contains(n) <==> old(self).names().contains(n)),
    {
        match self.index_of(name) {
            None => Ok(()),
            Some(i) => {
                let ghost old_names = self.names();
                self.names.remove(i);
                assert(self.names() =~= old_names.remove(i as int));
                proof {
                    assert forall|a: int, b: int|
                        0 <= a < self.names().len() && 0 <= b < self.names().len() && a != b implies self.names()[a]
                        != self.names()[b] by {
                        let a2 = if a < i { a } else { a + 1 };
                        let b2 = if b < i { b } else { b + 1 };
                        assert(self.names()[a] == old_names[a2]);
                        assert(self.names()[b] == old_names[b2]);
                    }
                    assert forall|n: Seq<char>| n != name@ implies (self.names().contains(n) <==> old_names.contains(n)) by {
                        if old_names.contains(n) {
                            let k = choose|k: int| 0 <= k < old_names.len() && old_names[k] == n;
                            let k2 = if k < i { k } else { k - 1 };
                            assert(self.names()[k2] == n);
                        }
                        if self.names().contains(n) {
                            let k = choose|k: int| 0 <= k < self.names().len() && self.names()[k] == n;
                            let k2 = if k < i { k } else { k + 1 };
                            assert(old_names[k2] == n);
                        }
                    }
                    if self.names().contains(name@) {
                        let k = choose|k: int| 0 <= k < self.names().len() && self.names()[k] == name@;
                        let k2 = if k < i { k } else { k + 1 };
                        assert(old_names[k2] == name@);
                        assert(old_names[i as int] == name@);
                    }
                }
                let outcome = if i < self.plugins.len() {
                    let plugin = self.plugins.remove(i);
                    plugin.on_shutdown()
                } else {
                    Ok(())
                };
                match outcome {
                    Ok(()) => {
                        self.remove_from_order(name);
                        Ok(())
                    },
                    Err(e) => Err(e),
                }
            },
        }
    }

    fn remove_from_order(&mut self, name: &str)
        ensures
            final(self).order() == drop_name(old(self).order(), name@),
            final(self).names@ == old(self).names@,
    {
        let ghost all = self.order();
        let mut kept: Vec<String> = Vec::new();
        let mut i: usize = 0;
        while i < self.execution_order.len()
            invariant
                i <= self.execution_order.len(),
                all == strings_view(self.execution_order@),
                strings_view(kept@) == drop_name(all.subrange(0, i as int), name@),
            decreases self.execution_order.len() - i,
        {
            proof {
                assert(all.subrange(0, i + 1).drop_last() =~= all.subrange(0, i as int));
            }
            if !str_eq(self.execution_order[i].as_str(), name) {
                let ghost before = strings_view(kept@);
                kept.push(owned(self.execution_order[i].as_str()));
                assert(strings_view(kept@) =~= before.push(all[i as int]));
            }
            i = i + 1;
        }
        assert(all.subrange(0, all.len() as int) =~= all);
        self.execution_order = kept;
    }

    /// Get a plugin by name
    pub fn get(&self, name: &str) -> (r: Option<&dyn Plugin>)
        ensures
            r is Some ==> self.names().contains(name@),
    {
        match self.index_of(name) {
            Some(i) => if i < self.plugins.len() {
                Some(&*self.plugins[i])
            } else {
                None
            },
            None => None,
        }
    }

    /// Check if a plugin is registered
    pub fn contains(&self, name: &str) -> (r: bool)
        ensures
            r == self.names().contains(name@),
    {
        self.index_of(name).is_some()
    }

    /// Get number of registered plugins
    pub fn count(&self) -> (r: usize)
        ensures
            r == self.names().len(),
    {
        self.names.len()
    }

    /// List plugin names in execution order
    pub fn list(&self) -> (r: Vec<String>)
        ensures
            strings_view(r@) == self.order(),
    {
        crate::config::copy_strings(&self.execution_order)
    }

    /// Execute a hook on every plugin in execution order, stopping at the
    /// first error, which is returned.
    pub fn execute_hook(&self, hook: PluginHook, ctx: &PluginContext) -> (r: Result<()>)
        ensures
            self.order().len() == 0 ==> r is Ok,
    {
        let mut i: usize = 0;
        while i < self.execution_order.len()
            invariant
                i <= self.execution_order.len(),
            decreases self.execution_order.len() - i,
        {
            match self.index_of(self.execution_order[i].as_str()) {
                Some(k) => {
                    if k < self.plugins.len() {
                        hook.execute(&*self.plugins[k], ctx)?;
                    }
                },
                None => {},
            }
            i = i + 1;
        }
        Ok(())
    }

    /// Execute a hook with an error message on every plugin in execution
    /// order, stopping at the first error.
    pub fn execute_hook_with_error(&self, hook: PluginHook, ctx: &PluginContext, error: &str) -> (r:
        Result<()>)
        ensures
            self.order().len() == 0 ==> r is Ok,
    {
        let mut i: usize = 0;
        while i < self.execution_order.len()
            invariant
                i <= self.execution_order.len(),
            decreases self.execution_order.len() - i,
        {
            match self.index_of(self.execution_order[i].as_str()) {
                Some(k) => {
                    if k < self.plugins.len() {
                        hook.execute_with_error(&*self.plugins[k], ctx, error)?;
                    }
                },
                None => {},
            }
            i = i + 1;
        }
        Ok(())
    }

    /// Shut down and unregister every plugin in execution order, stopping
    /// at the first shutdown error.
    pub fn shutdown(&mut self) -> (r: Result<()>)
        requires
            old(self).wf(),
        ensures
            final(self).wf(),
            forall|n: Seq<char>| #[trigger] final(self).names().contains(n) ==> old(self).names().contains(n),
            forall|n: Seq<char>|
                old(self).names().contains(n) && !old(self).order().contains(n) ==> #[trigger] final(self).names().contains(n),
            r is Ok ==> forall|n: Seq<char>| #[trigger] old(self).order().contains(n) ==> !final(self).names().contains(n),
            r is Ok ==> forall|n: Seq<char>| #[trigger] final(self).order().contains(n) ==> !old(self).names().contains(n),
            r is Err ==> exists|k: int|
                #[trigger] stopped_at(old(self).order(), old(self).names(), final(self).names(), k),
    {
        let names = crate::config::copy_strings(&self.execution_order);
        let ghost all = strings_view(names@);
        let ghost old_names = self.names();
        let mut i: usize = 0;
        while i < names.len()
            invariant
                self.wf(),
                i <= names.len(),
                strings_view(names@) == all,
                old_names == old(self).names(),
                all == old(self).order(),
                forall|n: Seq<char>| #[trigger] self.order().contains(n) ==> all.contains(n),
                forall|n: Seq<char>|
                    old_names.contains(n) && !self.names().contains(n) ==> !#[trigger] self.order().contains(n),
                forall|n: Seq<char>| #[trigger] self.names().contains(n) ==> old_names.contains(n),
                forall|n: Seq<char>| old_names.contains(n) && !all.contains(n) ==> #[trigger] self.names().contains(n),
                forall|j: int| 0 <= j < i ==> !#[trigger] self.names().contains(all[j]),
                forall|n: Seq<char>|
                    old_names.contains(n) && !all.subrange(0, i as int).contains(n)
                        ==> #[trigger] self.names().contains(n),
            decreases names.len() - i,
        {
            let ghost before_order = self.order();
            let ghost before_names = self.names();
            let ghost x = all[i as int];
            assert(names@[i as int]@ == x);
            let outcome = self.unregister(names[i].as_str());
            match outcome {
                Ok(()) => {},
                Err(e) => {
                    proof {
                        assert forall|n: Seq<char>| #[trigger] self.names().contains(n) implies old_names.contains(n) by {
                            assert(before_names.contains(n));
                        }
                        assert forall|n: Seq<char>| old_names.contains(n) && !all.contains(n) implies #[trigger] self.names().contains(n) by {
                            assert(all[i as int] == x);
                            if n == x {
                                assert(all.contains(x));
                            }
                        }
                        assert forall|n: Seq<char>|
                            old_names.contains(n) && !all.subrange(0, i + 1).contains(n) implies #[trigger] self.names().contains(n) by {
                            assert(all.subrange(0, i + 1)[i as int] == x);
                            if all.subrange(0, i as int).contains(n) {
                                let m = choose|m: int| 0 <= m < i && all.subrange(0, i as int)[m] == n;
                                assert(all.subrange(0, i + 1)[m] == n);
                            }
                        }
                        assert forall|j: int| 0 <= j <= i implies !#[trigger] self.names().contains(all[j]) by {
                            if j < i {
                                assert(!before_names.contains(all[j]));
                            }
                        }
                        assert(stopped_at(all, old_names, self.names(), i as int));
                    }
                    return Err(e);
                },
            }
            proof {
                assert forall|n: Seq<char>| #[trigger] self.order().contains(n) implies all.contains(n) by {
                    if before_names.contains(x) {
                        lemma_drop_name_contains(before_order, x, n);
                    }
                }
                assert forall|n: Seq<char>|
                    old_names.contains(n) && !self.names().contains(n) implies !#[trigger] self.order().contains(n) by {
                    if before_names.contains(x) {
                        lemma_drop_name_contains(before_order, x, n);
                    }
                }
                assert forall|n: Seq<char>| old_names.contains(n) && !all.contains(n) implies #[trigger] self.names().contains(n) by {
                    if n == x {
                        assert(all.contains(x));
                    }
                }
                assert forall|n: Seq<char>|
                    old_names.contains(n) && !all.subrange(0, i + 1).contains(n) implies #[trigger] self.names().contains(n) by {
                    assert(all.subrange(0, i + 1)[i as int] == x);
                    if all.subrange(0, i as int).contains(n) {
                        let m = choose|m: int| 0 <= m < i && all.subrange(0, i as int)[m] == n;
                        assert(all.subrange(0, i + 1)[m] == n);
                    }
                }
            }
            i = i + 1;
        }
        proof {
            assert forall|n: Seq<char>| #[trigger] all.contains(n) implies !self.names().contains(n) by {
                let j = choose|j: int| 0 <= j < all.len() && all[j] == n;
            }
            assert forall|n: Seq<char>| #[trigger] self.order().contains(n) implies !old_names.contains(n) by {
                assert(all.contains(n));
                let j = choose|j: int| 0 <= j < all.len() && all[j] == n;
                assert(!self.names().contains(all[j]));
            }
        }
        Ok(())
    }

    /// Set the execution order: every name must be registered.
    pub fn set_execution_order(&mut self, order: Vec<String>) -> (r: Result<()>)
        ensures
            r is Ok <==> forall|i: int| 0 <= i < order.len() ==> old(self).names().contains(#[trigger] order@[i]@),
            r is Ok ==> final(self).order() == strings_view(order@),
            r matches Err(e) ==> e is Config,
            r is Err ==> final(self).order() == old(self).order(),
            final(self).names() == old(self).names(),
    {
        let mut i: usize = 0;
        while i < order.len()
            invariant
                i <= order.len(),
                forall|j: int| 0 <= j < i ==> self.names().contains(#[trigger] order@[j]@),
            decreases order.len() - i,
        {
            if self.index_of(order[i].as_str()).is_none() {
                return Err(Error::Config(concat3("Plugin '", order[i].as_str(), "' is not registered")));
            }
            i = i + 1;
        }
        self.execution_order = order;
        Ok(())
    }
}

/// Initialize the plugin system with an empty registry
pub fn init() -> (r: Result<PluginRegistry>)
    ensures
        r matches Ok(reg) && reg.wf() && reg.names().len() == 0 && reg.order().len() == 0,
{
    Ok(PluginRegistry::new())
}

} // verus!
